//! Network interfaces: what the system reports of them, and how they are
//! described to a consumer.

use crate::text::{dotted_quad, dotted_quad_text, is_dotted_quad, lemma_dotted_quad_is_valid};
use pnet::util::MacAddr;
use vstd::prelude::*;

verus! {

/// An address of an interface.
#[derive(Clone, Copy, Debug, PartialEq, Eq)]
pub enum LinkAddress {
    V4([u8; 4]),
    V6([u8; 16]),
}

/// An interface as the system reports it.
#[derive(Clone, Debug, PartialEq, Eq)]
pub struct LinkInterface {
    /// The name that the system gave the interface.
    pub name: String,
    pub description: String,
    /// The hardware address, where the interface has one.
    pub mac: Option<[u8; 6]>,
    /// The addresses of the interface, in the system's order.
    pub addresses: Vec<LinkAddress>,
    /// Whether the interface is administratively up.
    pub up: bool,
    pub loopback: bool,
}

/// The description of an interface for a consumer.
#[derive(Clone, Debug, PartialEq, Eq)]
pub struct InterfaceInfo {
    pub name: String,
    pub description: Option<String>,
    /// The hardware address as text.
    pub mac: Option<String>,
    /// The IPv4 addresses in dotted-quad form, in the system's order.
    pub ipv4: Vec<String>,
}

/// What an [`InterfaceInfo`] holds.
pub struct InterfaceInfoView {
    pub name: Seq<char>,
    pub description: Option<Seq<char>>,
    pub mac: Option<Seq<char>>,
    pub ipv4: Seq<Seq<char>>,
}

/// The texts that a list of strings holds.
pub open spec fn texts(strings: Seq<String>) -> Seq<Seq<char>> {
    strings.map_values(|s: String| s@)
}

impl View for InterfaceInfo {
    type V = InterfaceInfoView;

    open spec fn view(&self) -> InterfaceInfoView {
        InterfaceInfoView {
            name: self.name@,
            description: match self.description {
                Some(text) => Some(text@),
                None => None,
            },
            mac: match self.mac {
                Some(text) => Some(text@),
                None => None,
            },
            ipv4: texts(self.ipv4@),
        }
    }
}

/// The character that writes the hexadecimal digit `d` in lower case.
pub open spec fn hex_digit_char(d: int) -> char
    recommends
        0 <= d < 16,
{
    if d < 10 {
        (('0' as int) + d) as char
    } else {
        (('a' as int) + d - 10) as char
    }
}

/// The two lower-case hexadecimal digits of a byte.
pub open spec fn hex_pair_text(byte: u8) -> Seq<char> {
    seq![hex_digit_char(byte as int / 16), hex_digit_char(byte as int % 16)]
}

/// The text form of a hardware address: its six bytes, each as two
/// lower-case hexadecimal digits, separated by colons.
pub open spec fn mac_text(octets: Seq<u8>) -> Seq<char>
    recommends
        octets.len() == 6,
{
    hex_pair_text(octets[0]) + seq![':'] + hex_pair_text(octets[1]) + seq![':'] + hex_pair_text(
        octets[2],
    ) + seq![':'] + hex_pair_text(octets[3]) + seq![':'] + hex_pair_text(octets[4]) + seq![':']
        + hex_pair_text(octets[5])
}

/// The dotted-quad text of an IPv4 address, and nothing for an IPv6 one.
pub open spec fn ipv4_text_of(address: LinkAddress) -> Option<Seq<char>> {
    match address {
        LinkAddress::V4(octets) => Some(dotted_quad_text(octets@)),
        LinkAddress::V6(_) => None,
    }
}

/// The dotted-quad texts of the IPv4 addresses among `addresses`, in order.
pub open spec fn ipv4_texts(addresses: Seq<LinkAddress>) -> Seq<Seq<char>> {
    addresses.filter_map(|address: LinkAddress| ipv4_text_of(address))
}

/// The description of the interface `link`: its name and description as they
/// are, its hardware address as text, and its IPv4 addresses alone.
pub open spec fn interface_info(link: LinkInterface) -> InterfaceInfoView {
    InterfaceInfoView {
        name: link.name@,
        description: Some(link.description@),
        mac: match link.mac {
            Some(octets) => Some(mac_text(octets@)),
            None => None,
        },
        ipv4: ipv4_texts(link.addresses@),
    }
}

/// Writes a hardware address with the `Display` of `pnet`'s `MacAddr`.
///
/// Believed of `pnet`, not proved: the text is the six bytes in order, each
/// as two lower-case hexadecimal digits, with a colon between them.
#[verifier::external_body]
fn mac_string(octets: &[u8; 6]) -> (s: String)
    ensures
        s@ == mac_text(octets@),
{
    MacAddr::new(octets[0], octets[1], octets[2], octets[3], octets[4], octets[5]).to_string()
}

/// The dotted-quad strings of the IPv4 addresses among `addresses`, in
/// order. IPv6 addresses are left out.
pub fn ipv4_strings(addresses: &Vec<LinkAddress>) -> (out: Vec<String>)
    ensures
        texts(out@) == ipv4_texts(addresses@),
{
    let mut out: Vec<String> = Vec::new();
    let mut i: usize = 0;
    assert(addresses@.take(0) =~= Seq::empty());
    assert(texts(out@) =~= Seq::empty());
    while i < addresses.len()
        invariant
            i <= addresses@.len(),
            texts(out@) == ipv4_texts(addresses@.take(i as int)),
        decreases addresses@.len() - i,
    {
        let ghost before = out@;
        assert(addresses@.take(i + 1).drop_last() =~= addresses@.take(i as int));
        match &addresses[i] {
            LinkAddress::V4(octets) => {
                let text = dotted_quad(octets);
                out.push(text);
                assert(texts(out@) =~= texts(before).push(text@));
            },
            LinkAddress::V6(_) => {},
        }
        i += 1;
    }
    assert(addresses@.take(i as int) =~= addresses@);
    out
}

impl InterfaceInfo {
    /// Describes one interface.
    pub fn describe(link: &LinkInterface) -> (info: InterfaceInfo)
        ensures
            info@ == interface_info(*link),
    {
        InterfaceInfo {
            name: link.name.clone(),
            description: Some(link.description.clone()),
            mac: match &link.mac {
                Some(octets) => Some(mac_string(octets)),
                None => None,
            },
            ipv4: ipv4_strings(&link.addresses),
        }
    }
}

/// Describes every interface of the table that the system reported, loopback
/// and down interfaces included, in the order of the table. A table that
/// could not be read gives its error back unchanged.
pub fn list_interfaces(table: Result<Vec<LinkInterface>, String>) -> (r: Result<
    Vec<InterfaceInfo>,
    String,
>)
    ensures
        match (table, r) {
            (Ok(links), Ok(infos)) => {
                &&& infos@.len() == links@.len()
                &&& forall|i: int|
                    0 <= i < links@.len() ==> (#[trigger] infos@[i])@ == interface_info(
                        links@[i],
                    )
            },
            (Err(reason), Err(reported)) => reported@ == reason@,
            _ => false,
        },
{
    match table {
        Ok(links) => {
            let mut infos: Vec<InterfaceInfo> = Vec::new();
            let mut i: usize = 0;
            while i < links.len()
                invariant
                    i <= links@.len(),
                    infos@.len() == i,
                    forall|j: int|
                        0 <= j < i ==> (#[trigger] infos@[j])@ == interface_info(links@[j]),
                decreases links@.len() - i,
            {
                infos.push(InterfaceInfo::describe(&links[i]));
                i += 1;
            }
            Ok(infos)
        },
        Err(reason) => Err(reason),
    }
}

/// Every entry among the IPv4 addresses of a description is a dotted quad,
/// and is the dotted-quad form of an IPv4 address of the interface: an IPv6
/// address of the interface leaves no entry.
pub proof fn lemma_ipv4_entries_are_dotted_quads(link: LinkInterface, j: int)
    requires
        0 <= j < interface_info(link).ipv4.len(),
    ensures
        is_dotted_quad(interface_info(link).ipv4[j]),
        exists|i: int|
            0 <= i < link.addresses@.len() && ipv4_text_of(#[trigger] link.addresses@[i]) == Some(
                interface_info(link).ipv4[j],
            ),
{
    let entry = interface_info(link).ipv4[j];
    let render = |address: LinkAddress| ipv4_text_of(address);
    assert(link.addresses@.filter_map(render).contains(entry));
    link.addresses@.lemma_filter_map_contains(render, entry);
    let address = choose|address: LinkAddress| #[trigger]
        link.addresses@.contains(address) && render(address) == Some(entry);
    let i = choose|i: int| 0 <= i < link.addresses@.len() && link.addresses@[i] == address;
    match address {
        LinkAddress::V4(octets) => {
            lemma_dotted_quad_is_valid(octets@);
        },
        LinkAddress::V6(_) => {},
    }
    assert(ipv4_text_of(link.addresses@[i]) == Some(entry));
}

} // verus!
