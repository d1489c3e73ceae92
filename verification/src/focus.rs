//! The focus-stealing session: a state machine that brackets the
//! focus-raising passes between linking and unlinking the calling thread's
//! input state with the target thread's.
//!
//! The link is global, shared state: leaving it in place would corrupt focus
//! behavior system-wide until one of the processes exits. The machine
//! therefore issues the unlink on every path once the link was made — also
//! when a focus-raising pass fails — and only then reports the failure. The
//! application layer drives the machine: it performs each issued action and
//! hands back the platform's result.

use vstd::prelude::*;

use crate::error::Error;

verus! {

/// Where a focus-stealing session stands.
#[derive(Clone, Copy, Debug, PartialEq, Eq)]
pub enum SessionState {
    /// The attach request was issued; its result is awaited.
    AwaitAttach,
    /// Input is linked; a focus-raising pass was issued, with this many
    /// passes already completed before it.
    AwaitPop { pops_done: u8 },
    /// The detach request was issued; `pending` holds the error code of the
    /// focus-raising pass that failed, if one did.
    AwaitDetach { pending: Option<u32> },
    /// The session is over with this outcome.
    Finished { result: Result<(), Error> },
}

/// What the application layer must do next: link or unlink the thread input
/// states, run one focus-raising pass, or stop with the session's outcome.
#[derive(Clone, Copy, Debug, PartialEq, Eq)]
pub enum SessionAction {
    AttachInput,
    PopFocus,
    DetachInput,
    Finish(Result<(), Error>),
}

/// The transition table. `result` is the platform's outcome of the action
/// issued last: `None` for success, the last-error code otherwise.
///
/// A failed attach is fatal at once: no link was made, so there is nothing
/// to release. Once the attach succeeded, three focus-raising passes run;
/// the first failing pass skips the remaining ones, but the detach is issued
/// regardless, and the pass's error is reported only after it. A failed
/// detach surfaces its own error, unless a pass failure is already pending.
pub open spec fn spec_step(s: SessionState, result: Option<u32>) -> (SessionState, SessionAction) {
    match s {
        SessionState::AwaitAttach => match result {
            Some(code) => {
                let r = Result::<(), Error>::Err(Error::Os(code));
                (SessionState::Finished { result: r }, SessionAction::Finish(r))
            },
            None => (SessionState::AwaitPop { pops_done: 0 }, SessionAction::PopFocus),
        },
        SessionState::AwaitPop { pops_done } => match result {
            Some(code) => (
                SessionState::AwaitDetach { pending: Some(code) },
                SessionAction::DetachInput,
            ),
            None => {
                if pops_done >= 2 {
                    (SessionState::AwaitDetach { pending: None }, SessionAction::DetachInput)
                } else {
                    (
                        SessionState::AwaitPop { pops_done: (pops_done + 1) as u8 },
                        SessionAction::PopFocus,
                    )
                }
            },
        },
        SessionState::AwaitDetach { pending } => {
            let r = match pending {
                Some(code) => Result::<(), Error>::Err(Error::Os(code)),
                None => match result {
                    Some(code) => Result::<(), Error>::Err(Error::Os(code)),
                    None => Result::<(), Error>::Ok(()),
                },
            };
            (SessionState::Finished { result: r }, SessionAction::Finish(r))
        },
        SessionState::Finished { result } => (
            SessionState::Finished { result },
            SessionAction::Finish(result),
        ),
    }
}

/// One focus-stealing session over a chosen window.
pub struct FocusSession {
    state: SessionState,
}

impl FocusSession {
    /// The machine's current state.
    pub closed spec fn spec_state(&self) -> SessionState {
        self.state
    }

    /// Starts a session: the first action is the attach request that links
    /// the calling thread's input state to the target window's thread.
    pub fn start() -> (r: (FocusSession, SessionAction))
        ensures
            r.0.spec_state() == SessionState::AwaitAttach,
            r.1 == SessionAction::AttachInput,
    {
        (FocusSession { state: SessionState::AwaitAttach }, SessionAction::AttachInput)
    }

    /// Feeds the platform's result of the last issued action into the
    /// machine and yields the next action, exactly as the transition table
    /// says.
    pub fn step(&mut self, result: Option<u32>) -> (a: SessionAction)
        ensures
            final(self).spec_state() == spec_step(old(self).spec_state(), result).0,
            a == spec_step(old(self).spec_state(), result).1,
    {
        let (next, action): (SessionState, SessionAction) = match self.state {
            SessionState::AwaitAttach => match result {
                Some(code) => {
                    let r = Result::<(), Error>::Err(Error::Os(code));
                    (SessionState::Finished { result: r }, SessionAction::Finish(r))
                },
                None => (SessionState::AwaitPop { pops_done: 0 }, SessionAction::PopFocus),
            },
            SessionState::AwaitPop { pops_done } => match result {
                Some(code) => (
                    SessionState::AwaitDetach { pending: Some(code) },
                    SessionAction::DetachInput,
                ),
                None => {
                    if pops_done >= 2 {
                        (SessionState::AwaitDetach { pending: None }, SessionAction::DetachInput)
                    } else {
                        (
                            SessionState::AwaitPop { pops_done: pops_done + 1 },
                            SessionAction::PopFocus,
                        )
                    }
                },
            },
            SessionState::AwaitDetach { pending } => {
                let r = match pending {
                    Some(code) => Result::<(), Error>::Err(Error::Os(code)),
                    None => match result {
                        Some(code) => Result::<(), Error>::Err(Error::Os(code)),
                        None => Result::<(), Error>::Ok(()),
                    },
                };
                (SessionState::Finished { result: r }, SessionAction::Finish(r))
            },
            SessionState::Finished { result } => (
                SessionState::Finished { result },
                SessionAction::Finish(result),
            ),
        };
        self.state = next;
        action
    }
}

/// The actions a session issues from state `s` as the platform results in
/// `events` come in, one result per issued action.
pub open spec fn session_actions(s: SessionState, events: Seq<Option<u32>>) -> Seq<SessionAction>
    decreases events.len(),
{
    if events.len() == 0 {
        Seq::empty()
    } else {
        let next = spec_step(s, events[0]);
        seq![next.1] + session_actions(next.0, events.skip(1))
    }
}

/// A session issues exactly one action for each result handed to it.
pub proof fn lemma_session_actions_len(s: SessionState, events: Seq<Option<u32>>)
    ensures
        session_actions(s, events).len() == events.len(),
    decreases events.len(),
{
    if events.len() > 0 {
        lemma_session_actions_len(spec_step(s, events[0]).0, events.skip(1));
    }
}

/// A finished session only reports its outcome, over and over: no further
/// platform action is ever issued.
pub proof fn lemma_finished_only_finishes(result: Result<(), Error>, events: Seq<Option<u32>>)
    ensures
        forall|k: int|
            0 <= k < events.len() ==> session_actions(
                SessionState::Finished { result },
                events,
            )[k] == SessionAction::Finish(result),
    decreases events.len(),
{
    if events.len() > 0 {
        lemma_finished_only_finishes(result, events.skip(1));
        lemma_session_actions_len(SessionState::Finished { result }, events.skip(1));
        let t = session_actions(SessionState::Finished { result }, events);
        let rest = session_actions(SessionState::Finished { result }, events.skip(1));
        assert(t == seq![SessionAction::Finish(result)] + rest);
        assert forall|k: int| 0 <= k < events.len() implies t[k] == SessionAction::Finish(
            result,
        ) by {
            if k > 0 {
                assert(t[k] == rest[k - 1]);
                assert(rest[k - 1] == SessionAction::Finish(result));
            }
        }
    }
}

/// A failed attach made no link, so there is nothing to release: such a
/// session never issues a detach request.
pub proof fn lemma_failed_attach_releases_nothing(events: Seq<Option<u32>>)
    requires
        events.len() >= 1,
        events[0] is Some,
    ensures
        !session_actions(SessionState::AwaitAttach, events).contains(SessionAction::DetachInput),
{
    let code = events[0]->0;
    let outcome = Result::<(), Error>::Err(Error::Os(code));
    let t = session_actions(SessionState::AwaitAttach, events);
    let rest = session_actions(SessionState::Finished { result: outcome }, events.skip(1));
    assert(t == seq![SessionAction::Finish(outcome)] + rest);
    lemma_finished_only_finishes(outcome, events.skip(1));
    lemma_session_actions_len(SessionState::Finished { result: outcome }, events.skip(1));
    assert forall|k: int| 0 <= k < t.len() implies t[k] != SessionAction::DetachInput by {
        if k > 0 {
            assert(t[k] == rest[k - 1]);
            assert(rest[k - 1] == SessionAction::Finish(outcome));
        }
    }
}

/// Scoped release of the input link: in every session whose attach request
/// succeeded and that ran to completion, the detach request is issued —
/// whatever the focus-raising passes returned.
pub proof fn lemma_attach_always_released(events: Seq<Option<u32>>)
    requires
        events.len() >= 5,
        events[0] is None,
    ensures
        session_actions(SessionState::AwaitAttach, events).contains(SessionAction::DetachInput),
{
    let t0 = session_actions(SessionState::AwaitAttach, events);
    let s1 = SessionState::AwaitPop { pops_done: 0 };
    let e1 = events.skip(1);
    let t1 = session_actions(s1, e1);
    assert(t0 == seq![SessionAction::PopFocus] + t1);
    if e1[0] is Some {
        assert(t1[0] == SessionAction::DetachInput);
        assert(t0[1] == SessionAction::DetachInput);
    } else {
        let s2 = SessionState::AwaitPop { pops_done: 1 };
        let e2 = e1.skip(1);
        let t2 = session_actions(s2, e2);
        assert(t1 == seq![SessionAction::PopFocus] + t2);
        assert(e2[0] == events[2]);
        if e2[0] is Some {
            assert(t2[0] == SessionAction::DetachInput);
            assert(t0[2] == SessionAction::DetachInput);
        } else {
            let s3 = SessionState::AwaitPop { pops_done: 2 };
            let e3 = e2.skip(1);
            let t3 = session_actions(s3, e3);
            assert(t2 == seq![SessionAction::PopFocus] + t3);
            assert(e3[0] == events[3]);
            assert(e3.len() >= 2);
            assert(t3[0] == SessionAction::DetachInput);
            assert(t0[3] == SessionAction::DetachInput);
        }
    }
}

} // verus!
