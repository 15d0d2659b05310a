//! The life of one capture session, as a state machine.
//!
//! The session decides; its caller acts. The caller reads the interface
//! table, opens the channel and reads frames, and tells the session what
//! came of it as a [`CaptureEvent`]. The session answers each event with a
//! [`CaptureAction`]: what to do or to deliver next.
//!
//! A request to stop only raises the session's cancellation flag. The flag
//! is looked at when the capture loop is about to read
//! ([`CaptureEvent::LoopTurn`]), so a frame that arrives between the request
//! and that look is still recorded. Stopping twice, or stopping a session
//! that has ended, changes nothing.
//!
//! How soon a stop takes effect is up to the caller's read. A read that
//! blocks until a frame arrives delays the next turn of the loop for as long
//! as the interface is silent. A caller whose read can time out reports the
//! time-out as [`CaptureEvent::ReadFailed`] and takes the next turn, which
//! bounds the delay by the time-out.

use crate::interface::LinkInterface;
use crate::packet::{current_seconds, decode_at, packet_record, PacketInfo, PacketInfoView};
use crate::wire::{carries_ipv4, ipv4_datagram, ipv4_in_frame, ETHERNET_HEADER_LEN};
use vstd::prelude::*;
use vstd::string::*;

verus! {

/// Why a capture could not start.
#[derive(Clone, Debug, PartialEq, Eq)]
pub enum CaptureError {
    /// No interface has the name that was asked for.
    InterfaceNotFound,
    /// No name was asked for, and no interface is up and not a loopback.
    NoActiveInterface,
    /// The system could not open a channel; its own words are kept.
    ChannelOpen(String),
    /// The system opened a channel that does not carry Ethernet frames.
    UnsupportedChannelType,
    /// A session is under way; it has to end before another starts.
    SessionAlreadyActive,
}

/// A status report for the consumer.
#[derive(Clone, Debug, PartialEq, Eq)]
pub struct CaptureStatus {
    pub success: bool,
    pub message: String,
    pub interface_name: Option<String>,
}

/// What a [`CaptureStatus`] holds.
pub struct CaptureStatusView {
    pub success: bool,
    pub message: Seq<char>,
    pub interface_name: Option<Seq<char>>,
}

impl View for CaptureStatus {
    type V = CaptureStatusView;

    open spec fn view(&self) -> CaptureStatusView {
        CaptureStatusView {
            success: self.success,
            message: self.message@,
            interface_name: match self.interface_name {
                Some(name) => Some(name@),
                None => None,
            },
        }
    }
}

/// Where a session stands, as a consumer sees it.
#[derive(Clone, Copy, Debug, PartialEq, Eq, Structural)]
pub enum SessionState {
    /// Started, and not capturing yet.
    Idle,
    Running,
    /// Capturing, with the cancellation flag raised.
    Stopping,
    Stopped,
}

/// What the caller reports to the session.
#[derive(Clone, Debug, PartialEq, Eq)]
pub enum CaptureEvent {
    /// The interface table was read.
    InterfacesListed(Vec<LinkInterface>),
    /// A channel for Ethernet frames was opened on the chosen interface.
    ChannelOpened,
    /// A channel of another kind was opened.
    ChannelUnsupported,
    /// No channel could be opened; the system's words are given.
    ChannelFailed(String),
    /// The capture loop is about to read the next frame.
    LoopTurn,
    /// A frame was read.
    FrameRead(Vec<u8>),
    /// A read failed or timed out. One failed read does not end the capture.
    ReadFailed,
    /// The consumer asked for the capture to stop.
    StopRequested,
}

/// What the session asks of the caller.
#[derive(Clone, Debug, PartialEq, Eq)]
pub enum CaptureAction {
    /// Open a channel on the interface at this place of the table.
    OpenChannel(usize),
    /// Deliver this status.
    EmitStatus(CaptureStatus),
    /// Deliver this packet record.
    EmitPacket(PacketInfo),
    /// Read the next frame.
    ReadFrame,
    /// Nothing: where a loop is running, it goes on.
    Nothing,
}

/// What a [`CaptureAction`] holds.
pub enum CaptureActionView {
    OpenChannel(nat),
    EmitStatus(CaptureStatusView),
    EmitPacket(PacketInfoView),
    ReadFrame,
    Nothing,
}

impl View for CaptureAction {
    type V = CaptureActionView;

    open spec fn view(&self) -> CaptureActionView {
        match self {
            CaptureAction::OpenChannel(index) => CaptureActionView::OpenChannel(*index as nat),
            CaptureAction::EmitStatus(status) => CaptureActionView::EmitStatus(status@),
            CaptureAction::EmitPacket(record) => CaptureActionView::EmitPacket(record@),
            CaptureAction::ReadFrame => CaptureActionView::ReadFrame,
            CaptureAction::Nothing => CaptureActionView::Nothing,
        }
    }
}

/// The step that a session has reached.
#[derive(Clone, Debug, PartialEq, Eq)]
enum SessionPhase {
    /// Waiting for the interface table.
    Resolving,
    /// Waiting for the channel on the interface of this name.
    Opening(String),
    /// Capturing on the interface of this name.
    Capturing(String),
    /// Over: the capture failed to start, or it was stopped.
    Finished,
}

/// What a [`SessionPhase`] holds.
pub enum SessionPhaseView {
    Resolving,
    Opening(Seq<char>),
    Capturing(Seq<char>),
    Finished,
}

impl View for SessionPhase {
    type V = SessionPhaseView;

    closed spec fn view(&self) -> SessionPhaseView {
        match self {
            SessionPhase::Resolving => SessionPhaseView::Resolving,
            SessionPhase::Opening(name) => SessionPhaseView::Opening(name@),
            SessionPhase::Capturing(name) => SessionPhaseView::Capturing(name@),
            SessionPhase::Finished => SessionPhaseView::Finished,
        }
    }
}

/// One capture session.
#[derive(Clone, Debug, PartialEq, Eq)]
pub struct CaptureSession {
    target: Option<String>,
    cancelled: bool,
    phase: SessionPhase,
}

/// What a [`CaptureSession`] holds.
pub struct CaptureSessionView {
    /// The interface name that was asked for, if one was.
    pub target: Option<Seq<char>>,
    /// The cancellation flag.
    pub cancelled: bool,
    pub phase: SessionPhaseView,
}

impl View for CaptureSession {
    type V = CaptureSessionView;

    closed spec fn view(&self) -> CaptureSessionView {
        CaptureSessionView {
            target: match self.target {
                Some(name) => Some(name@),
                None => None,
            },
            cancelled: self.cancelled,
            phase: self.phase@,
        }
    }
}

/// The message of an error.
pub open spec fn error_message(error: CaptureError) -> Seq<char> {
    match error {
        CaptureError::InterfaceNotFound => "Specified interface not found"@,
        CaptureError::NoActiveInterface => "No active network interface found"@,
        CaptureError::ChannelOpen(reason) => "Failed to create datalink channel: "@ + reason@,
        CaptureError::UnsupportedChannelType => "Unhandled channel type"@,
        CaptureError::SessionAlreadyActive => "A capture session is already active"@,
    }
}

/// The status that reports a failed start.
pub open spec fn failure_status(error: CaptureError) -> CaptureStatusView {
    CaptureStatusView { success: false, message: error_message(error), interface_name: None }
}

/// The status that reports a capture under way on the interface `name`.
pub open spec fn started_status(name: Seq<char>) -> CaptureStatusView {
    CaptureStatusView {
        success: true,
        message: "Capture started on interface: "@ + name,
        interface_name: Some(name),
    }
}

/// The status that reports the end of the capture on the interface `name`.
pub open spec fn stopped_status(name: Seq<char>) -> CaptureStatusView {
    CaptureStatusView { success: true, message: "stopped"@, interface_name: Some(name) }
}

/// Whether `link` is an interface to capture on: the one of the name asked
/// for, or, where no name was asked for, one that is up and no loopback.
pub open spec fn is_candidate(link: LinkInterface, target: Option<Seq<char>>) -> bool {
    match target {
        Some(name) => link.name@ == name,
        None => link.up && !link.loopback,
    }
}

/// The place of the first candidate in `table`, if there is one.
pub open spec fn first_candidate(table: Seq<LinkInterface>, target: Option<Seq<char>>) -> Option<
    nat,
>
    decreases table.len(),
{
    if table.len() == 0 {
        None
    } else if is_candidate(table[0], target) {
        Some(0)
    } else {
        match first_candidate(table.drop_first(), target) {
            Some(place) => Some(place + 1),
            None => None,
        }
    }
}

/// The error for a table without a candidate.
pub open spec fn no_candidate_error(target: Option<Seq<char>>) -> CaptureError {
    if target is Some {
        CaptureError::InterfaceNotFound
    } else {
        CaptureError::NoActiveInterface
    }
}

/// A session that was just started, with the interface name asked for.
pub open spec fn fresh_session(target: Option<Seq<char>>) -> CaptureSessionView {
    CaptureSessionView { target, cancelled: false, phase: SessionPhaseView::Resolving }
}

/// The state of a session as a consumer sees it.
pub open spec fn session_state(session: CaptureSessionView) -> SessionState {
    match session.phase {
        SessionPhaseView::Resolving => SessionState::Idle,
        SessionPhaseView::Opening(_) => SessionState::Idle,
        SessionPhaseView::Capturing(_) => if session.cancelled {
            SessionState::Stopping
        } else {
            SessionState::Running
        },
        SessionPhaseView::Finished => SessionState::Stopped,
    }
}

/// The session after `event`.
pub open spec fn step_state(session: CaptureSessionView, event: CaptureEvent) -> CaptureSessionView {
    match (session.phase, event) {
        (SessionPhaseView::Resolving, CaptureEvent::InterfacesListed(table)) => {
            match first_candidate(table@, session.target) {
                Some(place) => CaptureSessionView {
                    phase: SessionPhaseView::Opening(table@[place as int].name@),
                    ..session
                },
                None => CaptureSessionView { phase: SessionPhaseView::Finished, ..session },
            }
        },
        (SessionPhaseView::Opening(name), CaptureEvent::ChannelOpened) => CaptureSessionView {
            phase: SessionPhaseView::Capturing(name),
            ..session
        },
        (SessionPhaseView::Opening(_), CaptureEvent::ChannelUnsupported) => CaptureSessionView {
            phase: SessionPhaseView::Finished,
            ..session
        },
        (SessionPhaseView::Opening(_), CaptureEvent::ChannelFailed(_)) => CaptureSessionView {
            phase: SessionPhaseView::Finished,
            ..session
        },
        (SessionPhaseView::Capturing(_), CaptureEvent::LoopTurn) => if session.cancelled {
            CaptureSessionView { phase: SessionPhaseView::Finished, ..session }
        } else {
            session
        },
        (SessionPhaseView::Finished, CaptureEvent::StopRequested) => session,
        (_, CaptureEvent::StopRequested) => CaptureSessionView { cancelled: true, ..session },
        _ => session,
    }
}

/// What the session asks for on `event`. A packet record is stamped with
/// `seconds`.
pub open spec fn step_action(
    session: CaptureSessionView,
    event: CaptureEvent,
    seconds: u64,
) -> CaptureActionView {
    match (session.phase, event) {
        (SessionPhaseView::Resolving, CaptureEvent::InterfacesListed(table)) => {
            match first_candidate(table@, session.target) {
                Some(place) => CaptureActionView::OpenChannel(place),
                None => CaptureActionView::EmitStatus(
                    failure_status(no_candidate_error(session.target)),
                ),
            }
        },
        (SessionPhaseView::Opening(name), CaptureEvent::ChannelOpened) => {
            CaptureActionView::EmitStatus(started_status(name))
        },
        (SessionPhaseView::Opening(_), CaptureEvent::ChannelUnsupported) => {
            CaptureActionView::EmitStatus(failure_status(CaptureError::UnsupportedChannelType))
        },
        (SessionPhaseView::Opening(_), CaptureEvent::ChannelFailed(reason)) => {
            CaptureActionView::EmitStatus(failure_status(CaptureError::ChannelOpen(reason)))
        },
        (SessionPhaseView::Capturing(name), CaptureEvent::LoopTurn) => if session.cancelled {
            CaptureActionView::EmitStatus(stopped_status(name))
        } else {
            CaptureActionView::ReadFrame
        },
        (SessionPhaseView::Capturing(_), CaptureEvent::FrameRead(frame)) => if carries_ipv4(
            frame@,
        ) {
            CaptureActionView::EmitPacket(
                packet_record(ipv4_datagram(frame@.skip(ETHERNET_HEADER_LEN as int)), seconds),
            )
        } else {
            CaptureActionView::Nothing
        },
        _ => CaptureActionView::Nothing,
    }
}

/// The text that an optional string holds.
pub open spec fn option_text(text: Option<String>) -> Option<Seq<char>> {
    match text {
        Some(text) => Some(text@),
        None => None,
    }
}

/// The first candidate is a candidate, and nothing before it is one; where
/// there is none, nothing in the table is a candidate.
pub proof fn lemma_first_candidate(table: Seq<LinkInterface>, target: Option<Seq<char>>)
    ensures
        match first_candidate(table, target) {
            Some(place) => {
                &&& place < table.len()
                &&& is_candidate(table[place as int], target)
                &&& forall|j: int| 0 <= j < place ==> !is_candidate(#[trigger] table[j], target)
            },
            None => forall|j: int| 0 <= j < table.len() ==> !is_candidate(#[trigger] table[j], target),
        },
    decreases table.len(),
{
    if table.len() > 0 && !is_candidate(table[0], target) {
        let rest = table.drop_first();
        lemma_first_candidate(rest, target);
        assert(forall|j: int| 0 < j < table.len() ==> table[j] == rest[j - 1]);
    }
}

/// A candidate with no candidate before it is the first candidate.
pub proof fn lemma_first_candidate_at(
    table: Seq<LinkInterface>,
    target: Option<Seq<char>>,
    place: int,
)
    requires
        0 <= place < table.len(),
        is_candidate(table[place], target),
        forall|j: int| 0 <= j < place ==> !is_candidate(#[trigger] table[j], target),
    ensures
        first_candidate(table, target) == Some(place as nat),
{
    lemma_first_candidate(table, target);
}

/// Picks the interface to capture on: the first of the name asked for, or,
/// where no name was asked for, the first that is up and no loopback.
pub fn select_interface(table: &Vec<LinkInterface>, target: &Option<String>) -> (r: Result<
    usize,
    CaptureError,
>)
    ensures
        match r {
            Ok(place) => {
                &&& place < table@.len()
                &&& first_candidate(table@, option_text(*target)) == Some(place as nat)
            },
            Err(error) => {
                &&& first_candidate(table@, option_text(*target)) is None
                &&& error == no_candidate_error(option_text(*target))
            },
        },
{
    let mut i: usize = 0;
    while i < table.len()
        invariant
            i <= table@.len(),
            forall|j: int| 0 <= j < i ==> !is_candidate(#[trigger] table@[j], option_text(*target)),
        decreases table@.len() - i,
    {
        let link = &table[i];
        let found = match target {
            Some(name) => link.name == *name,
            None => link.up && !link.loopback,
        };
        if found {
            proof {
                lemma_first_candidate_at(table@, option_text(*target), i as int);
            }
            return Ok(i);
        }
        i += 1;
    }
    proof {
        lemma_first_candidate(table@, option_text(*target));
    }
    match target {
        Some(_) => Err(CaptureError::InterfaceNotFound),
        None => Err(CaptureError::NoActiveInterface),
    }
}

impl CaptureError {
    /// The message of the error, as a status carries it.
    pub fn message(&self) -> (text: String)
        ensures
            text@ == error_message(*self),
    {
        match self {
            CaptureError::InterfaceNotFound => String::from_str("Specified interface not found"),
            CaptureError::NoActiveInterface => String::from_str(
                "No active network interface found",
            ),
            CaptureError::ChannelOpen(reason) => {
                let mut text = String::from_str("Failed to create datalink channel: ");
                text.append(reason.as_str());
                text
            },
            CaptureError::UnsupportedChannelType => String::from_str("Unhandled channel type"),
            CaptureError::SessionAlreadyActive => String::from_str(
                "A capture session is already active",
            ),
        }
    }
}

impl CaptureStatus {
    /// The status that reports a failed start.
    pub fn failure(error: &CaptureError) -> (status: CaptureStatus)
        ensures
            status@ == failure_status(*error),
    {
        CaptureStatus { success: false, message: error.message(), interface_name: None }
    }

    /// The status that reports a capture under way on the interface `name`.
    pub fn started(name: &String) -> (status: CaptureStatus)
        ensures
            status@ == started_status(name@),
    {
        let mut message = String::from_str("Capture started on interface: ");
        message.append(name.as_str());
        CaptureStatus { success: true, message, interface_name: Some(name.clone()) }
    }

    /// The status that reports the end of the capture on the interface
    /// `name`.
    pub fn stopped(name: &String) -> (status: CaptureStatus)
        ensures
            status@ == stopped_status(name@),
    {
        CaptureStatus {
            success: true,
            message: String::from_str("stopped"),
            interface_name: Some(name.clone()),
        }
    }
}

impl CaptureSession {
    /// A session that was just started. `target` is the interface name that
    /// was asked for, if one was.
    pub fn new(target: Option<String>) -> (session: CaptureSession)
        ensures
            session@ == fresh_session(option_text(target)),
    {
        CaptureSession { target, cancelled: false, phase: SessionPhase::Resolving }
    }

    /// Where the session stands.
    pub fn state(&self) -> (state: SessionState)
        ensures
            state == session_state(self@),
    {
        match &self.phase {
            SessionPhase::Resolving => SessionState::Idle,
            SessionPhase::Opening(_) => SessionState::Idle,
            SessionPhase::Capturing(_) => if self.cancelled {
                SessionState::Stopping
            } else {
                SessionState::Running
            },
            SessionPhase::Finished => SessionState::Stopped,
        }
    }

    /// Takes `event` in and answers with what is to be done. A packet record
    /// is stamped with `seconds` since the Unix epoch.
    pub fn step_at(&mut self, event: CaptureEvent, seconds: u64) -> (action: CaptureAction)
        ensures
            final(self)@ == step_state(old(self)@, event),
            action@ == step_action(old(self)@, event, seconds),
    {
        match event {
            CaptureEvent::InterfacesListed(table) => {
                if matches!(self.phase, SessionPhase::Resolving) {
                    match select_interface(&table, &self.target) {
                        Ok(place) => {
                            self.phase = SessionPhase::Opening(table[place].name.clone());
                            CaptureAction::OpenChannel(place)
                        },
                        Err(error) => {
                            self.phase = SessionPhase::Finished;
                            CaptureAction::EmitStatus(CaptureStatus::failure(&error))
                        },
                    }
                } else {
                    CaptureAction::Nothing
                }
            },
            CaptureEvent::ChannelOpened => {
                match self.opening_on() {
                    Some(name) => {
                        let status = CaptureStatus::started(&name);
                        self.phase = SessionPhase::Capturing(name);
                        CaptureAction::EmitStatus(status)
                    },
                    None => CaptureAction::Nothing,
                }
            },
            CaptureEvent::ChannelUnsupported => {
                match self.opening_on() {
                    Some(_) => {
                        self.phase = SessionPhase::Finished;
                        CaptureAction::EmitStatus(
                            CaptureStatus::failure(&CaptureError::UnsupportedChannelType),
                        )
                    },
                    None => CaptureAction::Nothing,
                }
            },
            CaptureEvent::ChannelFailed(reason) => {
                match self.opening_on() {
                    Some(_) => {
                        self.phase = SessionPhase::Finished;
                        CaptureAction::EmitStatus(
                            CaptureStatus::failure(&CaptureError::ChannelOpen(reason)),
                        )
                    },
                    None => CaptureAction::Nothing,
                }
            },
            CaptureEvent::LoopTurn => {
                match self.capturing_on() {
                    Some(name) => {
                        if self.cancelled {
                            self.phase = SessionPhase::Finished;
                            CaptureAction::EmitStatus(CaptureStatus::stopped(&name))
                        } else {
                            CaptureAction::ReadFrame
                        }
                    },
                    None => CaptureAction::Nothing,
                }
            },
            CaptureEvent::FrameRead(frame) => {
                match self.capturing_on() {
                    Some(_) => {
                        match ipv4_in_frame(frame.as_slice()) {
                            Some(ip) => CaptureAction::EmitPacket(decode_at(&ip, seconds)),
                            None => CaptureAction::Nothing,
                        }
                    },
                    None => CaptureAction::Nothing,
                }
            },
            CaptureEvent::ReadFailed => CaptureAction::Nothing,
            CaptureEvent::StopRequested => {
                if !matches!(self.phase, SessionPhase::Finished) {
                    self.cancelled = true;
                }
                CaptureAction::Nothing
            },
        }
    }

    /// Takes `event` in and answers with what is to be done. A packet record
    /// is stamped with the time of the call.
    pub fn step(&mut self, event: CaptureEvent) -> (action: CaptureAction)
        ensures
            final(self)@ == step_state(old(self)@, event),
            exists|seconds: u64| action@ == #[trigger] step_action(old(self)@, event, seconds),
    {
        let seconds: u64 = match &event {
            CaptureEvent::FrameRead(_) => current_seconds(),
            _ => 0,
        };
        self.step_at(event, seconds)
    }

    fn opening_on(&self) -> (name: Option<String>)
        ensures
            match name {
                Some(name) => self@.phase == SessionPhaseView::Opening(name@),
                None => !(self@.phase is Opening),
            },
    {
        match &self.phase {
            SessionPhase::Opening(name) => Some(name.clone()),
            _ => None,
        }
    }

    fn capturing_on(&self) -> (name: Option<String>)
        ensures
            match name {
                Some(name) => self@.phase == SessionPhaseView::Capturing(name@),
                None => !(self@.phase is Capturing),
            },
    {
        match &self.phase {
            SessionPhase::Capturing(name) => Some(name.clone()),
            _ => None,
        }
    }
}

/// The session after all of `events`, taken in order.
pub open spec fn run_state(
    session: CaptureSessionView,
    events: Seq<CaptureEvent>,
) -> CaptureSessionView
    decreases events.len(),
{
    if events.len() == 0 {
        session
    } else {
        step_state(run_state(session, events.drop_last()), events.last())
    }
}

/// The actions that the session answers `events` with, in order. The clock
/// shows `stamps[i]` when event `i` is taken in.
pub open spec fn run_actions(
    session: CaptureSessionView,
    events: Seq<CaptureEvent>,
    stamps: Seq<u64>,
) -> Seq<CaptureActionView>
    recommends
        stamps.len() == events.len(),
{
    Seq::new(
        events.len(),
        |i: int| step_action(run_state(session, events.take(i)), events[i], stamps[i]),
    )
}

/// Whether `action` delivers a status that ends a session: a failure, or the
/// report that the capture has stopped.
pub open spec fn is_terminal_status(action: CaptureActionView) -> bool {
    action matches CaptureActionView::EmitStatus(status) && (!status.success || status.message
        == "stopped"@)
}

/// Whether `action` delivers the status that reports a capture under way.
pub open spec fn is_start_status(action: CaptureActionView) -> bool {
    action matches CaptureActionView::EmitStatus(status) && status.interface_name matches Some(
        name,
    ) && status == started_status(name)
}

/// A session that is over stays as it is and asks for nothing, whatever it
/// is told.
pub proof fn lemma_finished_is_final(
    session: CaptureSessionView,
    event: CaptureEvent,
    seconds: u64,
)
    requires
        session.phase is Finished,
    ensures
        step_state(session, event) == session,
        step_action(session, event, seconds) == CaptureActionView::Nothing,
{
}

/// A status that ends a session is delivered only on the step that takes the
/// session from a phase in which it is not over to the end.
pub proof fn lemma_terminal_status_ends(
    session: CaptureSessionView,
    event: CaptureEvent,
    seconds: u64,
)
    requires
        is_terminal_status(step_action(session, event, seconds)),
    ensures
        !(session.phase is Finished),
        step_state(session, event).phase is Finished,
{
    reveal_strlit("stopped");
    reveal_strlit("Capture started on interface: ");
    if let SessionPhaseView::Opening(name) = session.phase {
        assert(started_status(name).message.len() >= 30);
    }
}

/// A request to stop asks for nothing, and a second request in a row
/// changes nothing.
pub proof fn lemma_stop_is_idempotent(session: CaptureSessionView, seconds: u64)
    ensures
        step_action(session, CaptureEvent::StopRequested, seconds) == CaptureActionView::Nothing,
        step_state(step_state(session, CaptureEvent::StopRequested), CaptureEvent::StopRequested)
            == step_state(session, CaptureEvent::StopRequested),
{
}

/// Packet records are delivered only while the session captures, and only
/// for frames that carry IPv4; delivering one leaves the session as it is.
pub proof fn lemma_packets_only_while_capturing(
    session: CaptureSessionView,
    event: CaptureEvent,
    seconds: u64,
)
    requires
        step_action(session, event, seconds) is EmitPacket,
    ensures
        session.phase is Capturing,
        step_state(session, event) == session,
        event matches CaptureEvent::FrameRead(frame) && carries_ipv4(frame@),
{
}

/// Taking in one more event is one more step.
proof fn lemma_run_one_more(session: CaptureSessionView, events: Seq<CaptureEvent>, n: int)
    requires
        0 <= n < events.len(),
    ensures
        run_state(session, events.take(n + 1)) == step_state(
            run_state(session, events.take(n)),
            events[n],
        ),
{
    assert(events.take(n + 1).drop_last() =~= events.take(n));
}

/// Once a session is over, it stays as it is and no answer to any later
/// event delivers anything.
pub proof fn lemma_nothing_after_the_end(
    session: CaptureSessionView,
    events: Seq<CaptureEvent>,
    stamps: Seq<u64>,
)
    requires
        session.phase is Finished,
        stamps.len() == events.len(),
    ensures
        run_state(session, events) == session,
        forall|i: int|
            0 <= i < events.len() ==> #[trigger] run_actions(session, events, stamps)[i]
                == CaptureActionView::Nothing,
    decreases events.len(),
{
    if events.len() > 0 {
        lemma_nothing_after_the_end(session, events.drop_last(), stamps.drop_last());
        assert forall|i: int| 0 <= i < events.len() implies #[trigger] run_actions(
            session,
            events,
            stamps,
        )[i] == CaptureActionView::Nothing by {
            lemma_nothing_after_the_end(session, events.take(i), stamps.take(i));
        }
    }
}

/// A session that is over after `n` events is still the same after `m`.
proof fn lemma_the_end_lasts(
    session: CaptureSessionView,
    events: Seq<CaptureEvent>,
    n: int,
    m: int,
)
    requires
        0 <= n <= m <= events.len(),
        run_state(session, events.take(n)).phase is Finished,
    ensures
        run_state(session, events.take(m)) == run_state(session, events.take(n)),
    decreases m - n,
{
    if n < m {
        lemma_the_end_lasts(session, events, n, m - 1);
        lemma_run_one_more(session, events, m - 1);
    }
}

/// A session delivers at most one status that ends it, whatever it is told
/// and however often it is asked to stop: every answer after such a status
/// delivers nothing.
pub proof fn lemma_one_terminal_status(
    session: CaptureSessionView,
    events: Seq<CaptureEvent>,
    stamps: Seq<u64>,
    i: int,
    j: int,
)
    requires
        stamps.len() == events.len(),
        0 <= i < j < events.len(),
        is_terminal_status(run_actions(session, events, stamps)[i]),
    ensures
        run_actions(session, events, stamps)[j] == CaptureActionView::Nothing,
        run_state(session, events).phase is Finished,
{
    lemma_terminal_status_ends(run_state(session, events.take(i)), events[i], stamps[i]);
    lemma_run_one_more(session, events, i);
    lemma_the_end_lasts(session, events, i + 1, j);
    lemma_the_end_lasts(session, events, i + 1, events.len() as int);
    assert(events.take(events.len() as int) =~= events);
}

/// What has been delivered when a fresh session has taken in `n` events:
/// while it captures, the status that reports the start; while it is not
/// over, no status that ends it.
proof fn lemma_delivered_so_far(
    target: Option<Seq<char>>,
    events: Seq<CaptureEvent>,
    stamps: Seq<u64>,
    n: int,
)
    requires
        stamps.len() == events.len(),
        0 <= n <= events.len(),
    ensures
        ({
            let reached = run_state(fresh_session(target), events.take(n));
            let actions = run_actions(fresh_session(target), events, stamps);
            &&& reached.phase is Capturing ==> exists|i: int|
                0 <= i < n && is_start_status(#[trigger] actions[i])
            &&& !(reached.phase is Finished) ==> forall|k: int|
                0 <= k < n ==> !is_terminal_status(#[trigger] actions[k])
        }),
    decreases n,
{
    if n > 0 {
        let session = fresh_session(target);
        let actions = run_actions(session, events, stamps);
        let before = run_state(session, events.take(n - 1));
        let reached = run_state(session, events.take(n));
        lemma_delivered_so_far(target, events, stamps, n - 1);
        lemma_run_one_more(session, events, n - 1);
        if reached.phase is Capturing && !(before.phase is Capturing) {
            assert(is_start_status(actions[n - 1]));
        }
        if !(reached.phase is Finished) {
            if is_terminal_status(actions[n - 1]) {
                lemma_terminal_status_ends(before, events[n - 1], stamps[n - 1]);
            }
        }
    }
}

/// The statuses of a session frame its packet records: before a packet
/// record is delivered the start has been reported, and no status that ends
/// the session has been delivered.
pub proof fn lemma_packets_follow_the_start(
    target: Option<Seq<char>>,
    events: Seq<CaptureEvent>,
    stamps: Seq<u64>,
    j: int,
)
    requires
        stamps.len() == events.len(),
        0 <= j < events.len(),
        run_actions(fresh_session(target), events, stamps)[j] is EmitPacket,
    ensures
        exists|i: int|
            0 <= i < j && is_start_status(
                #[trigger] run_actions(fresh_session(target), events, stamps)[i],
            ),
        forall|k: int|
            0 <= k <= j ==> !is_terminal_status(
                #[trigger] run_actions(fresh_session(target), events, stamps)[k],
            ),
{
    let session = fresh_session(target);
    lemma_packets_only_while_capturing(run_state(session, events.take(j)), events[j], stamps[j]);
    lemma_delivered_so_far(target, events, stamps, j);
}

/// Asking for an interface that the table does not hold fails the start:
/// the answer is a status without success, and no packet record is ever
/// delivered after it.
pub proof fn lemma_unknown_interface_fails(
    name: Seq<char>,
    table: Vec<LinkInterface>,
    seconds: u64,
    events: Seq<CaptureEvent>,
    stamps: Seq<u64>,
)
    requires
        forall|i: int| 0 <= i < table@.len() ==> (#[trigger] table@[i]).name@ != name,
        stamps.len() == events.len(),
    ensures
        ({
            let session = fresh_session(Some(name));
            let event = CaptureEvent::InterfacesListed(table);
            let after = step_state(session, event);
            &&& step_action(session, event, seconds) == CaptureActionView::EmitStatus(
                failure_status(CaptureError::InterfaceNotFound),
            )
            &&& !failure_status(CaptureError::InterfaceNotFound).success
            &&& after.phase is Finished
            &&& forall|i: int|
                0 <= i < events.len() ==> !(#[trigger] run_actions(after, events, stamps)[i]
                    is EmitPacket)
        }),
{
    let session = fresh_session(Some(name));
    let event = CaptureEvent::InterfacesListed(table);
    lemma_first_candidate(table@, Some(name));
    lemma_nothing_after_the_end(step_state(session, event), events, stamps);
}

} // verus!
