//! Decisions of an hx server session: which requests are dispatched, how each
//! call is answered, when the session stops reading, and how it closes.
//!
//! The session does no I/O. Its owner reads frames, runs dispatched calls and
//! writes frames, feeding each outcome back as an event and performing the
//! action that comes back.

use crate::error::RpcError;
use crate::message::{HxClientBoundHeader, HxServerBoundHeader};
use std::collections::HashMap;
use vstd::prelude::*;

verus! {

broadcast use vstd::std_specs::hash::group_hash_axioms;

/// Tracks the calls of a session that have not been answered yet.
///
/// Each in-flight call ID maps to a poison flag: `false` while the ID was
/// registered once, `true` once a second request reused it.
pub struct HxServerResponseCore {
    in_flight: HashMap<u32, bool>,
}

impl View for HxServerResponseCore {
    type V = Map<u32, bool>;

    closed spec fn view(&self) -> Map<u32, bool> {
        self.in_flight@
    }
}

impl HxServerResponseCore {
    /// An empty core.
    pub fn new() -> (r: Self)
        ensures
            r@ == Map::<u32, bool>::empty(),
    {
        HxServerResponseCore { in_flight: HashMap::new() }
    }

    /// Register an in-flight ID. If the ID is already registered, its state
    /// becomes poisoned (`true`); otherwise it is registered as normal
    /// (`false`). Returns the state after the call.
    pub fn register(&mut self, id: u32) -> (poisoned: bool)
        ensures
            poisoned == old(self)@.contains_key(id),
            final(self)@ == old(self)@.insert(id, poisoned),
    {
        let present = self.in_flight.contains_key(&id);
        self.in_flight.insert(id, present);
        present
    }

    /// Release an in-flight ID, returning whether it was poisoned.
    pub fn complete(&mut self, id: u32) -> (poisoned: bool)
        requires
            old(self)@.contains_key(id),
        ensures
            poisoned == old(self)@[id],
            final(self)@ == old(self)@.remove(id),
    {
        match self.in_flight.remove(&id) {
            Some(p) => p,
            None => false,
        }
    }

    /// Returns `true` if `id` is in flight.
    pub fn contains(&self, id: u32) -> (r: bool)
        ensures
            r == self@.contains_key(id),
    {
        self.in_flight.contains_key(&id)
    }
}

/// What is left to do with the request frame of one call.
#[derive(Clone, Copy, Debug, PartialEq, Eq, Structural)]
pub enum HxServerReadStage {
    /// The frame is waiting to be decoded.
    Frame,
    /// Decoding the frame failed; it must be discarded with `read_fault`.
    Fault,
    /// The frame has been consumed.
    Done,
}

/// Why a call's request frame could not be read.
#[derive(Clone, Copy, Debug, PartialEq, Eq, Structural)]
pub enum HxReadStageError {
    /// A read came after decoding had already failed.
    ReadOnFailedFrame,
    /// A read came after the frame was consumed.
    ReadOnConsumedFrame,
    /// A discard came after the frame was consumed.
    FaultOnConsumedFrame,
}

impl HxServerReadStage {
    /// Whether a read may decode the frame now; otherwise the error to report.
    pub fn begin_read(&self) -> (r: Result<(), HxReadStageError>)
        ensures
            r is Ok <==> *self == HxServerReadStage::Frame,
            *self == HxServerReadStage::Fault ==> r == Err::<(), HxReadStageError>(
                HxReadStageError::ReadOnFailedFrame,
            ),
            *self == HxServerReadStage::Done ==> r == Err::<(), HxReadStageError>(
                HxReadStageError::ReadOnConsumedFrame,
            ),
    {
        match self {
            HxServerReadStage::Frame => Ok(()),
            HxServerReadStage::Fault => Err(HxReadStageError::ReadOnFailedFrame),
            HxServerReadStage::Done => Err(HxReadStageError::ReadOnConsumedFrame),
        }
    }

    /// Record the outcome of decoding the frame: consumed when it decoded,
    /// faulted otherwise.
    pub fn finish_read(&mut self, decoded: bool)
        requires
            *old(self) == HxServerReadStage::Frame,
        ensures
            *final(self) == if decoded {
                HxServerReadStage::Done
            } else {
                HxServerReadStage::Fault
            },
    {
        *self = if decoded {
            HxServerReadStage::Done
        } else {
            HxServerReadStage::Fault
        };
    }

    /// Discard the frame without decoding it.
    pub fn read_fault(&mut self) -> (r: Result<(), HxReadStageError>)
        ensures
            *old(self) == HxServerReadStage::Done ==> r == Err::<(), HxReadStageError>(
                HxReadStageError::FaultOnConsumedFrame,
            ) && *final(self) == *old(self),
            *old(self) != HxServerReadStage::Done ==> r is Ok && *final(self)
                == HxServerReadStage::Done,
    {
        match self {
            HxServerReadStage::Done => Err(HxReadStageError::FaultOnConsumedFrame),
            _ => {
                *self = HxServerReadStage::Done;
                Ok(())
            },
        }
    }
}

/// Where a session is in its life.
#[derive(Clone, Copy, Debug, PartialEq, Eq, Structural)]
pub enum HxSessionPhase {
    /// Frames are being read and dispatched.
    Reading,
    /// No further frame is read; the calls still running are awaited.
    Draining,
    /// The session is over.
    Finished,
}

/// Something that happened to a session.
#[derive(Clone, Copy, Debug, PartialEq, Eq, Structural)]
pub enum HxSessionEvent {
    /// A frame with this header was read.
    Frame(HxServerBoundHeader),
    /// The inbound frames ended, or could not be read, before `Complete`.
    StreamEnded,
    /// A dispatched call finished: `Some(true)` when its handler succeeded,
    /// `Some(false)` when it reported a failure, `None` when its task did not
    /// return a result.
    CallFinished(Option<bool>),
    /// No further dispatched call has finished for now.
    NoneReady,
    /// Every dispatched call has finished.
    AllFinished,
}

/// What the owner of a session does next.
#[derive(Clone, Debug, PartialEq, Eq)]
pub enum HxSessionAction {
    /// Run the handler of `method_id` for the call `call_id`.
    Dispatch { call_id: u32, method_id: u32 },
    /// Answer the call `call_id` with a failure frame carrying `error`.
    Reject { call_id: u32, error: RpcError },
    /// Collect the calls that have finished, without waiting.
    PollCalls,
    /// Read the next frame.
    ReadNext,
    /// Wait for the next call to finish.
    DrainCalls,
    /// Write a final frame with this header and end the session.
    Close(HxClientBoundHeader),
    /// End the session with an error, writing no final frame; the error is
    /// `HxServerSession::abort_message`.
    Abort,
    /// Nothing to do.
    Ignore,
}

/// The state of a session: its in-flight calls, whether every finished call
/// has succeeded so far, and its phase.
pub struct HxServerSession {
    core: HxServerResponseCore,
    good: bool,
    phase: HxSessionPhase,
}

/// The phase, health and action that follow `event` in a session that is in
/// `phase` with health `good`, where `duplicate` tells whether a request's ID
/// was already in flight.
pub open spec fn session_step(
    phase: HxSessionPhase,
    good: bool,
    duplicate: bool,
    event: HxSessionEvent,
) -> (HxSessionPhase, bool, HxSessionAction) {
    match (phase, event) {
        (HxSessionPhase::Finished, _) => (phase, good, HxSessionAction::Ignore),
        (_, HxSessionEvent::CallFinished(r)) => (
            phase,
            good && r != Some(false),
            if phase == HxSessionPhase::Reading {
                HxSessionAction::PollCalls
            } else {
                HxSessionAction::DrainCalls
            },
        ),
        (
            HxSessionPhase::Reading,
            HxSessionEvent::Frame(HxServerBoundHeader::Request { call_id, method_id }),
        ) => (
            phase,
            good,
            if duplicate {
                HxSessionAction::Reject { call_id, error: RpcError::DuplicateCallId(call_id) }
            } else {
                HxSessionAction::Dispatch { call_id, method_id }
            },
        ),
        (HxSessionPhase::Reading, HxSessionEvent::Frame(HxServerBoundHeader::Complete {  })) => (
            HxSessionPhase::Draining,
            good,
            HxSessionAction::DrainCalls,
        ),
        (HxSessionPhase::Reading, HxSessionEvent::StreamEnded) => (
            HxSessionPhase::Finished,
            good,
            HxSessionAction::Abort,
        ),
        (HxSessionPhase::Reading, HxSessionEvent::NoneReady) => if good {
            (phase, good, HxSessionAction::ReadNext)
        } else {
            (HxSessionPhase::Draining, good, HxSessionAction::DrainCalls)
        },
        (HxSessionPhase::Draining, HxSessionEvent::AllFinished) => (
            HxSessionPhase::Finished,
            good,
            HxSessionAction::Close(
                if good {
                    HxClientBoundHeader::Complete {  }
                } else {
                    HxClientBoundHeader::ChannelError {  }
                },
            ),
        ),
        _ => (phase, good, HxSessionAction::Ignore),
    }
}

/// The phase and health of a fresh session after `events`, one step each.
pub open spec fn session_after(events: Seq<HxSessionEvent>) -> (HxSessionPhase, bool)
    decreases events.len(),
{
    if events.len() == 0 {
        (HxSessionPhase::Reading, true)
    } else {
        let (phase, good) = session_after(events.drop_last());
        let (next_phase, next_good, _) = session_step(phase, good, false, events.last());
        (next_phase, next_good)
    }
}

/// `true` when some event of `events` reports a failed call.
pub open spec fn reports_failure(events: Seq<HxSessionEvent>) -> bool {
    exists|i: int|
        0 <= i < events.len() && #[trigger] events[i] == HxSessionEvent::CallFinished(Some(false))
}

/// Until a session finishes, it is healthy exactly when no event has
/// reported a failed call.
proof fn lemma_session_health(events: Seq<HxSessionEvent>)
    requires
        session_after(events).0 != HxSessionPhase::Finished,
    ensures
        session_after(events).1 <==> !reports_failure(events),
    decreases events.len(),
{
    if events.len() > 0 {
        let init = events.drop_last();
        let (phase, good) = session_after(init);
        if phase == HxSessionPhase::Finished {
            assert(session_after(events).0 == HxSessionPhase::Finished);
        } else {
            lemma_session_health(init);
            if reports_failure(init) {
                let i = choose|i: int|
                    0 <= i < init.len() && #[trigger] init[i] == HxSessionEvent::CallFinished(
                        Some(false),
                    );
                assert(events[i] == init[i]);
            }
            if reports_failure(events) {
                let i = choose|i: int|
                    0 <= i < events.len() && #[trigger] events[i] == HxSessionEvent::CallFinished(
                        Some(false),
                    );
                if i < events.len() - 1 {
                    assert(init[i] == events[i]);
                }
            }
        }
    }
}

/// A session closes with `Complete` exactly when no call reported a failure
/// before it closed, and with `ChannelError` otherwise; whether a request
/// reused a call ID plays no part.
pub proof fn lemma_session_closes_cleanly_iff_no_failure(
    events: Seq<HxSessionEvent>,
    duplicate: bool,
)
    requires
        events.len() > 0,
        session_step(
            session_after(events.drop_last()).0,
            session_after(events.drop_last()).1,
            duplicate,
            events.last(),
        ).2 is Close,
    ensures
        session_step(
            session_after(events.drop_last()).0,
            session_after(events.drop_last()).1,
            duplicate,
            events.last(),
        ).2 == if reports_failure(events) {
            HxSessionAction::Close(HxClientBoundHeader::ChannelError {  })
        } else {
            HxSessionAction::Close(HxClientBoundHeader::Complete {  })
        },
{
    let init = events.drop_last();
    lemma_session_health(init);
    assert(events.last() == HxSessionEvent::AllFinished);
    if reports_failure(init) {
        let i = choose|i: int|
            0 <= i < init.len() && #[trigger] init[i] == HxSessionEvent::CallFinished(Some(false));
        assert(events[i] == init[i]);
    }
    if reports_failure(events) {
        let i = choose|i: int|
            0 <= i < events.len() && #[trigger] events[i] == HxSessionEvent::CallFinished(
                Some(false),
            );
        if i < events.len() - 1 {
            assert(init[i] == events[i]);
        }
    }
}

impl HxServerSession {
    /// The error a session ends with when it aborts: the frames ended before
    /// the client asked to complete.
    pub fn abort_message() -> (r: String)
        ensures
            r@ == "unexpected end of frames without complete"@,
    {
        String::from_str("unexpected end of frames without complete")
    }

    /// The calls in flight, each with its poison flag.
    pub closed spec fn in_flight(&self) -> Map<u32, bool> {
        self.core@
    }

    /// `true` while no finished call has reported a failure.
    pub closed spec fn is_good(&self) -> bool {
        self.good
    }

    /// The phase of the session.
    pub closed spec fn phase(&self) -> HxSessionPhase {
        self.phase
    }

    /// A session that has read nothing yet.
    pub fn new() -> (r: Self)
        ensures
            r.in_flight() == Map::<u32, bool>::empty(),
            r.is_good(),
            r.phase() == HxSessionPhase::Reading,
    {
        HxServerSession {
            core: HxServerResponseCore::new(),
            good: true,
            phase: HxSessionPhase::Reading,
        }
    }

    /// The phase of the session.
    pub fn current_phase(&self) -> (r: HxSessionPhase)
        ensures
            r == self.phase(),
    {
        self.phase
    }

    /// Take in one event and say what to do next.
    ///
    /// A request read while the session is reading registers its call ID: a
    /// fresh ID is dispatched, a reused one is rejected with
    /// `DuplicateCallId` (and the earlier call's answer is replaced by that
    /// error too, see `respond`).
    pub fn step(&mut self, event: HxSessionEvent) -> (action: HxSessionAction)
        ensures
            ({
                let duplicate = old(self).in_flight().contains_key(
                    match event {
                        HxSessionEvent::Frame(HxServerBoundHeader::Request { call_id, .. }) => call_id,
                        _ => 0,
                    },
                );
                let (phase, good, act) = session_step(
                    old(self).phase(),
                    old(self).is_good(),
                    duplicate,
                    event,
                );
                &&& final(self).phase() == phase
                &&& final(self).is_good() == good
                &&& action == act
            }),
            match (old(self).phase(), event) {
                (
                    HxSessionPhase::Reading,
                    HxSessionEvent::Frame(HxServerBoundHeader::Request { call_id, .. }),
                ) => final(self).in_flight() == old(self).in_flight().insert(
                    call_id,
                    old(self).in_flight().contains_key(call_id),
                ),
                _ => final(self).in_flight() == old(self).in_flight(),
            },
    {
        match (self.phase, event) {
            (HxSessionPhase::Finished, _) => HxSessionAction::Ignore,
            (_, HxSessionEvent::CallFinished(r)) => {
                let failed = match r {
                    Some(ok) => !ok,
                    None => false,
                };
                if failed {
                    self.good = false;
                }
                if self.phase == HxSessionPhase::Reading {
                    HxSessionAction::PollCalls
                } else {
                    HxSessionAction::DrainCalls
                }
            },
            (
                HxSessionPhase::Reading,
                HxSessionEvent::Frame(HxServerBoundHeader::Request { call_id, method_id }),
            ) => {
                if self.core.register(call_id) {
                    HxSessionAction::Reject { call_id, error: RpcError::DuplicateCallId(call_id) }
                } else {
                    HxSessionAction::Dispatch { call_id, method_id }
                }
            },
            (HxSessionPhase::Reading, HxSessionEvent::Frame(HxServerBoundHeader::Complete {  })) => {
                self.phase = HxSessionPhase::Draining;
                HxSessionAction::DrainCalls
            },
            (HxSessionPhase::Reading, HxSessionEvent::StreamEnded) => {
                self.phase = HxSessionPhase::Finished;
                HxSessionAction::Abort
            },
            (HxSessionPhase::Reading, HxSessionEvent::NoneReady) => {
                if self.good {
                    HxSessionAction::ReadNext
                } else {
                    self.phase = HxSessionPhase::Draining;
                    HxSessionAction::DrainCalls
                }
            },
            (HxSessionPhase::Draining, HxSessionEvent::AllFinished) => {
                self.phase = HxSessionPhase::Finished;
                HxSessionAction::Close(
                    if self.good {
                        HxClientBoundHeader::Complete {  }
                    } else {
                        HxClientBoundHeader::ChannelError {  }
                    },
                )
            },
            _ => HxSessionAction::Ignore,
        }
    }

    /// Answer a call whose handler produced a result. `None` means the result
    /// is sent in a success frame; `Some(e)` means a failure frame carrying
    /// `e` is sent instead, which happens when another request reused the
    /// call's ID while it was in flight (`e` is then `DuplicateCallId`). The
    /// call is no longer in flight afterwards.
    pub fn respond(&mut self, call_id: u32) -> (r: Option<RpcError>)
        requires
            old(self).in_flight().contains_key(call_id),
        ensures
            r == if old(self).in_flight()[call_id] {
                Some(RpcError::DuplicateCallId(call_id))
            } else {
                None::<RpcError>
            },
            final(self).in_flight() == old(self).in_flight().remove(call_id),
            final(self).is_good() == old(self).is_good(),
            final(self).phase() == old(self).phase(),
    {
        if self.core.complete(call_id) {
            Some(RpcError::DuplicateCallId(call_id))
        } else {
            None
        }
    }

    /// Answer a call with a failure: `error`, or `DuplicateCallId` when
    /// another request reused the call's ID while it was in flight. The call
    /// is no longer in flight afterwards.
    pub fn respond_fault(&mut self, call_id: u32, error: RpcError) -> (sent: RpcError)
        requires
            old(self).in_flight().contains_key(call_id),
        ensures
            sent == if old(self).in_flight()[call_id] {
                RpcError::DuplicateCallId(call_id)
            } else {
                error
            },
            final(self).in_flight() == old(self).in_flight().remove(call_id),
            final(self).is_good() == old(self).is_good(),
            final(self).phase() == old(self).phase(),
    {
        if self.core.complete(call_id) {
            RpcError::DuplicateCallId(call_id)
        } else {
            error
        }
    }
}

} // verus!
