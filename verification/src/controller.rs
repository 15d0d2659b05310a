//! The capture controller: at most one session at a time.
//!
//! Starting while a session is under way is refused with
//! [`CaptureError::SessionAlreadyActive`]; the session that runs is left as
//! it is. A session that is over is replaced by a fresh one. Stopping with
//! no session, or with one that is over, does nothing.

use crate::session::{
    fresh_session, option_text, session_state, step_action, step_state, CaptureAction,
    CaptureActionView, CaptureError, CaptureEvent, CaptureSession, CaptureSessionView,
    SessionState,
};
use vstd::prelude::*;

verus! {

/// The controller of captures. It holds the session that was started last,
/// if any was.
#[derive(Clone, Debug, PartialEq, Eq)]
pub struct CaptureController {
    session: Option<CaptureSession>,
}

impl View for CaptureController {
    type V = Option<CaptureSessionView>;

    closed spec fn view(&self) -> Option<CaptureSessionView> {
        match self.session {
            Some(session) => Some(session@),
            None => None,
        }
    }
}

/// Whether a session is under way: started, and not over.
pub open spec fn is_active(controller: Option<CaptureSessionView>) -> bool {
    controller matches Some(session) && !(session.phase is Finished)
}

/// The controller after `event` was passed on to its session.
pub open spec fn controller_state(
    controller: Option<CaptureSessionView>,
    event: CaptureEvent,
) -> Option<CaptureSessionView> {
    match controller {
        Some(session) => Some(step_state(session, event)),
        None => None,
    }
}

/// What the controller's session asks for on `event`; nothing where there is
/// no session.
pub open spec fn controller_action(
    controller: Option<CaptureSessionView>,
    event: CaptureEvent,
    seconds: u64,
) -> CaptureActionView {
    match controller {
        Some(session) => step_action(session, event, seconds),
        None => CaptureActionView::Nothing,
    }
}

impl CaptureController {
    /// A controller without a session.
    pub fn new() -> (controller: CaptureController)
        ensures
            controller@ is None,
    {
        CaptureController { session: None }
    }

    /// Where the session stands, if there is one.
    pub fn state(&self) -> (state: Option<SessionState>)
        ensures
            state == match self@ {
                Some(session) => Some(session_state(session)),
                None => None,
            },
    {
        match &self.session {
            Some(session) => Some(session.state()),
            None => None,
        }
    }

    /// Starts a session on the interface of the name `target`, or on the
    /// first active one where no name is given. While a session is under
    /// way the start is refused and nothing changes.
    pub fn start_capture(&mut self, target: Option<String>) -> (r: Result<(), CaptureError>)
        ensures
            match r {
                Ok(_) => !is_active(old(self)@) && final(self)@ == Some(
                    fresh_session(option_text(target)),
                ),
                Err(error) => is_active(old(self)@) && final(self)@ == old(self)@ && error
                    == CaptureError::SessionAlreadyActive,
            },
    {
        let active = match &self.session {
            Some(session) => session.state() != SessionState::Stopped,
            None => false,
        };
        if active {
            Err(CaptureError::SessionAlreadyActive)
        } else {
            self.session = Some(CaptureSession::new(target));
            Ok(())
        }
    }

    /// Asks the session to stop. The request raises the cancellation flag of
    /// a session that is under way and returns at once; it delivers nothing.
    pub fn stop_capture(&mut self)
        ensures
            final(self)@ == controller_state(old(self)@, CaptureEvent::StopRequested),
    {
        let _ = self.step_at(CaptureEvent::StopRequested, 0);
    }

    /// Passes `event` on to the session and answers with what is to be done.
    /// A packet record is stamped with `seconds` since the Unix epoch.
    pub fn step_at(&mut self, event: CaptureEvent, seconds: u64) -> (action: CaptureAction)
        ensures
            final(self)@ == controller_state(old(self)@, event),
            action@ == controller_action(old(self)@, event, seconds),
    {
        match &mut self.session {
            Some(session) => session.step_at(event, seconds),
            None => CaptureAction::Nothing,
        }
    }

    /// Passes `event` on to the session and answers with what is to be done.
    /// A packet record is stamped with the time of the call.
    pub fn step(&mut self, event: CaptureEvent) -> (action: CaptureAction)
        ensures
            final(self)@ == controller_state(old(self)@, event),
            exists|seconds: u64|
                action@ == #[trigger] controller_action(old(self)@, event, seconds),
    {
        let ghost before = self@;
        let ghost told = event;
        let action = match &mut self.session {
            Some(session) => session.step(event),
            None => CaptureAction::Nothing,
        };
        proof {
            let seconds = match before {
                Some(session) => choose|seconds: u64|
                    action@ == #[trigger] step_action(session, told, seconds),
                None => 0,
            };
            assert(action@ == controller_action(before, told, seconds));
        }
        action
    }
}

/// Stopping twice in a row leaves the controller as stopping once does, and
/// neither request delivers anything.
pub proof fn lemma_stop_twice(controller: Option<CaptureSessionView>, seconds: u64)
    ensures
        controller_state(
            controller_state(controller, CaptureEvent::StopRequested),
            CaptureEvent::StopRequested,
        ) == controller_state(controller, CaptureEvent::StopRequested),
        controller_action(controller, CaptureEvent::StopRequested, seconds)
            == CaptureActionView::Nothing,
        controller_action(
            controller_state(controller, CaptureEvent::StopRequested),
            CaptureEvent::StopRequested,
            seconds,
        ) == CaptureActionView::Nothing,
{
}

} // verus!
