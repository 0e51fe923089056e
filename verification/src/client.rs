//! Decisions of an hx client channel: which calls are admitted, where each
//! response goes, and how the channel shuts down or breaks.
//!
//! The state does no I/O. Its owner writes and reads frames, keeps a waiter
//! (`W`) for each pending call, and performs what each decision says.

use crate::call::{
    all_taken, first_free_from, lemma_first_free_is_least, lemma_first_free_unique,
    lemma_full_walk_covers, walk_taken, wrap_step,
};
use crate::error::RpcError;
use crate::message::HxClientBoundHeader;
use crate::text::{decimal_text, push_decimal};
use std::collections::BTreeMap;
use vstd::prelude::*;

verus! {

broadcast use {vstd::std_specs::btree::group_btree_axioms, vstd::laws_cmp::group_laws_cmp};

/// The calls of a channel that await their response, each with its waiter.
pub struct PendingCalls<W> {
    next_candidate: u32,
    waiters: BTreeMap<u32, W>,
}

impl<W> PendingCalls<W> {
    /// The pending calls and their waiters.
    pub closed spec fn view_map(&self) -> Map<u32, W> {
        self.waiters@
    }

    /// Every identifier below the next candidate is pending.
    pub closed spec fn wf(&self) -> bool {
        forall|x: u32| x < self.next_candidate ==> self.waiters@.contains_key(x)
    }

    /// No call pending.
    pub fn new() -> (r: Self)
        ensures
            r.wf(),
            r.view_map() == Map::<u32, W>::empty(),
    {
        PendingCalls { next_candidate: 0, waiters: BTreeMap::new() }
    }

    /// Register `waiter` under the first available call ID: the smallest
    /// `u32` that is not pending. Fails with `CallIdExhausted`, dropping the
    /// waiter, when every `u32` is pending.
    pub fn allocate(&mut self, waiter: W) -> (r: Result<u32, RpcError>)
        requires
            old(self).wf(),
        ensures
            final(self).wf(),
            match r {
                Ok(id) => {
                    &&& !old(self).view_map().contains_key(id)
                    &&& forall|x: u32| x < id ==> old(self).view_map().contains_key(x)
                    &&& final(self).view_map() == old(self).view_map().insert(id, waiter)
                },
                Err(e) => {
                    &&& e == RpcError::CallIdExhausted
                    &&& all_taken(old(self).view_map().dom())
                    &&& final(self).view_map() == old(self).view_map()
                },
            },
    {
        let found = self.find_first_available_from(self.next_candidate);
        proof {
            lemma_first_free_is_least(self.waiters@.dom(), self.next_candidate);
        }
        let call_id = match found {
            Some(c) => c,
            None => return Err(RpcError::CallIdExhausted),
        };
        self.waiters.insert(call_id, waiter);
        self.refresh_next_candidate_from(call_id.wrapping_add(1), call_id);
        Ok(call_id)
    }

    /// Take the waiter of `call_id` out, if the call is pending.
    pub fn complete(&mut self, call_id: u32) -> (r: Option<W>)
        requires
            old(self).wf(),
        ensures
            final(self).wf(),
            match r {
                Some(w) => old(self).view_map().contains_key(call_id) && w == old(
                    self,
                ).view_map()[call_id],
                None => !old(self).view_map().contains_key(call_id),
            },
            final(self).view_map() == old(self).view_map().remove(call_id),
    {
        let sender = self.waiters.remove(&call_id);
        if sender.is_some() && call_id < self.next_candidate {
            self.next_candidate = call_id;
        }
        sender
    }

    /// Returns `true` when no call is pending.
    pub fn is_empty(&self) -> (r: bool)
        ensures
            r == (self.view_map().dom() == Set::<u32>::empty()),
    {
        let r = self.waiters.is_empty();
        proof {
            if r {
                assert(self.waiters@.dom() =~= Set::<u32>::empty());
            } else {
                assert(self.waiters@.dom() != Set::<u32>::empty());
            }
        }
        r
    }

    /// Take every pending call out, leaving none.
    pub fn take_all(&mut self) -> (r: BTreeMap<u32, W>)
        ensures
            final(self).wf(),
            r@ == old(self).view_map(),
            final(self).view_map() == Map::<u32, W>::empty(),
    {
        let mut taken = BTreeMap::new();
        std::mem::swap(&mut taken, &mut self.waiters);
        self.next_candidate = 0;
        taken
    }

    /// The first call ID not pending met while walking upward from `start`,
    /// wrapping around; `None` when every ID is pending.
    fn find_first_available_from(&self, start: u32) -> (r: Option<u32>)
        ensures
            r == first_free_from(self.waiters@.dom(), start),
    {
        let ghost ids = self.waiters@.dom();
        let mut candidate = start;
        let mut steps: u64 = 0;
        loop
            invariant
                ids == self.waiters@.dom(),
                0 <= steps < 0x1_0000_0000,
                candidate == wrap_step(start, steps as int),
                walk_taken(ids, start, steps as int),
            decreases 0x1_0000_0000 - steps,
        {
            if !self.waiters.contains_key(&candidate) {
                proof {
                    assert(!all_taken(ids));
                    let k = choose|k: int|
                        0 <= k < 0x1_0000_0000 && !ids.contains(#[trigger] wrap_step(start, k))
                            && walk_taken(ids, start, k);
                    lemma_first_free_unique(ids, start, k, steps as int);
                }
                return Some(candidate);
            }
            proof {
                assert forall|k: int| 0 <= k < steps + 1 implies ids.contains(
                    #[trigger] wrap_step(start, k),
                ) by {
                    if k == steps {
                        assert(wrap_step(start, k) == candidate);
                    }
                }
            }
            candidate = candidate.wrapping_add(1);
            steps = steps + 1;
            if candidate == start {
                proof {
                    assert(steps == 0x1_0000_0000) by {
                        if steps < 0x1_0000_0000 {
                            assert(wrap_step(start, steps as int) != start);
                        }
                    }
                    lemma_full_walk_covers(ids, start);
                }
                return None;
            }
        }
    }

    /// Move the next candidate to the first call ID not pending at or after
    /// `start`, which directly follows the pending `taken`, every ID below
    /// which is pending too.
    fn refresh_next_candidate_from(&mut self, start: u32, taken: u32)
        requires
            old(self).waiters@.contains_key(taken),
            start == wrap_step(taken, 1),
            forall|x: u32| x < taken ==> old(self).waiters@.contains_key(x),
        ensures
            final(self).wf(),
            final(self).waiters@ == old(self).waiters@,
    {
        let next = match self.find_first_available_from(start) {
            Some(c) => c,
            None => start,
        };
        proof {
            assert forall|x: u32| x < start implies self.waiters@.dom().contains(x) by {
                assert(x <= taken);
            }
            lemma_first_free_is_least(self.waiters@.dom(), start);
        }
        self.next_candidate = next;
    }
}

/// Where a client channel is in its life.
#[derive(Clone, Copy, Debug, PartialEq, Eq, Structural)]
pub enum ChannelLifecycle {
    /// Calls are admitted.
    Open,
    /// A graceful shutdown is under way; no call is admitted.
    Completing,
    /// The channel closed gracefully.
    Closed,
    /// The channel broke down.
    Broken,
}

/// Whether a call may go out.
pub enum CallAdmission {
    /// The call goes out under this call ID.
    Admitted(u32),
    /// The call is refused with this error, which the caller gets as its
    /// result.
    Refused(RpcError),
    /// The channel is broken: the call fails with this message.
    Broken(String),
}

/// What to do with a header read by the receiver.
pub enum ReceiverAction<W> {
    /// Hand the response frame to this waiter and read on.
    Deliver(W),
    /// Read on; waiters of a graceful shutdown are woken when `notify`.
    Continue { notify: bool },
    /// The channel broke with `message`: fail each of `failed` (when the
    /// channel was not already over), wake the waiters, and stop with an
    /// error.
    Stop { message: String, failed: Option<BTreeMap<u32, W>> },
}

/// How the end of the inbound frames is taken.
pub enum EofOutcome<W> {
    /// The shutdown had been acknowledged and no call is pending: the channel
    /// is closed.
    Graceful,
    /// The channel broke with `message`; each of `failed` gets that error.
    Broken { message: String, failed: BTreeMap<u32, W> },
}

/// Whether a channel that is being completed has reached its end.
pub enum TerminalCheck {
    /// Closed gracefully.
    Closed,
    /// Broken, with this message.
    Broken(String),
    /// Still open or completing: wait for a change.
    Pending,
}

/// When the server acknowledges a shutdown, the waiters of the graceful
/// shutdown are woken exactly when the channel is then completing: whether
/// the client had already begun the shutdown or the acknowledgement starts
/// it. A closed or broken channel wakes no one and stays as it was.
pub proof fn lemma_acknowledgement_wakes_completing_channels<W>(
    s: HxClientChannelState<W>,
    next: HxClientChannelState<W>,
    notify: bool,
)
    requires
        s.acknowledges_to(next, notify),
    ensures
        notify <==> next.lifecycle() == ChannelLifecycle::Completing,
        (s.lifecycle() == ChannelLifecycle::Open || s.lifecycle() == ChannelLifecycle::Completing)
            ==> notify,
        !notify ==> next.lifecycle() == s.lifecycle(),
        next.shutdown_acknowledged(),
        next.pending() == s.pending(),
{
}

/// The shared state of a client channel.
pub struct HxClientChannelState<W> {
    lifecycle: ChannelLifecycle,
    shutdown_acknowledged: bool,
    pending_calls: PendingCalls<W>,
    terminal_message: Option<String>,
}

/// The message of a channel that broke without a diagnostic.
pub open spec fn no_diagnostic_text() -> Seq<char> {
    "channel broke without a diagnostic"@
}

/// The message a broken channel reports: its terminal message, or the
/// no-diagnostic message when it has none.
pub open spec fn broken_text(terminal: Option<Seq<char>>) -> Seq<char> {
    match terminal {
        Some(m) => m,
        None => no_diagnostic_text(),
    }
}

impl<W> HxClientChannelState<W> {
    /// The lifecycle of the channel.
    pub closed spec fn lifecycle(&self) -> ChannelLifecycle {
        self.lifecycle
    }

    /// Whether the server has acknowledged a shutdown.
    pub closed spec fn shutdown_acknowledged(&self) -> bool {
        self.shutdown_acknowledged
    }

    /// The pending calls and their waiters.
    pub closed spec fn pending(&self) -> Map<u32, W> {
        self.pending_calls.view_map()
    }

    /// The message the channel broke with, if any.
    pub closed spec fn terminal(&self) -> Option<Seq<char>> {
        match self.terminal_message {
            Some(m) => Some(m@),
            None => None,
        }
    }

    /// The internal consistency of the pending calls.
    pub closed spec fn wf(&self) -> bool {
        self.pending_calls.wf()
    }

    /// `next` is this state after breaking with `message`, `failed` being
    /// what the break hands back: a closed or broken channel stays as it is
    /// and hands back nothing; any other breaks, failing every pending call.
    pub open spec fn breaks_to(
        self,
        next: Self,
        message: Seq<char>,
        failed: Option<BTreeMap<u32, W>>,
    ) -> bool {
        &&& next.shutdown_acknowledged() == self.shutdown_acknowledged()
        &&& match self.lifecycle() {
            ChannelLifecycle::Closed | ChannelLifecycle::Broken => {
                &&& failed is None
                &&& next.lifecycle() == self.lifecycle()
                &&& next.pending() == self.pending()
                &&& next.terminal() == self.terminal()
            },
            _ => {
                &&& failed matches Some(f) && f@ == self.pending()
                &&& next.lifecycle() == ChannelLifecycle::Broken
                &&& next.pending() == Map::<u32, W>::empty()
                &&& next.terminal() == Some(message)
            },
        }
    }

    /// `next` and `r` are this state and the receiver's action after a
    /// response to `call_id`: a pending call gets the frame; an unknown call
    /// ID breaks the channel with a message naming it.
    pub open spec fn routes_to(self, next: Self, call_id: u32, r: ReceiverAction<W>) -> bool {
        if self.pending().contains_key(call_id) {
            &&& r matches ReceiverAction::Deliver(w) && w == self.pending()[call_id]
            &&& next.pending() == self.pending().remove(call_id)
            &&& next.lifecycle() == self.lifecycle()
            &&& next.terminal() == self.terminal()
            &&& next.shutdown_acknowledged() == self.shutdown_acknowledged()
        } else {
            let message = "received response for unknown call id "@ + decimal_text(
                call_id as nat,
            );
            r matches ReceiverAction::Stop { message: m, failed } && m@ == message
                && self.breaks_to(next, message, failed)
        }
    }

    /// `next` is this state after the server acknowledged a shutdown, and
    /// `notify` says whether waiters are woken: an open channel starts
    /// completing; waiters are woken unless the channel is closed or broken.
    pub open spec fn acknowledges_to(self, next: Self, notify: bool) -> bool {
        &&& next.shutdown_acknowledged()
        &&& notify == (self.lifecycle() == ChannelLifecycle::Open || self.lifecycle()
            == ChannelLifecycle::Completing)
        &&& next.lifecycle() == if self.lifecycle() == ChannelLifecycle::Open {
            ChannelLifecycle::Completing
        } else {
            self.lifecycle()
        }
        &&& next.pending() == self.pending()
        &&& next.terminal() == self.terminal()
    }

    /// A fresh, open channel.
    pub fn new() -> (r: Self)
        ensures
            r.wf(),
            r.lifecycle() == ChannelLifecycle::Open,
            !r.shutdown_acknowledged(),
            r.pending() == Map::<u32, W>::empty(),
            r.terminal() is None,
    {
        HxClientChannelState {
            lifecycle: ChannelLifecycle::Open,
            shutdown_acknowledged: false,
            pending_calls: PendingCalls::new(),
            terminal_message: None,
        }
    }

    /// The terminal message, or the no-diagnostic message.
    fn broken_message(&self) -> (r: String)
        ensures
            r@ == broken_text(self.terminal()),
    {
        match &self.terminal_message {
            Some(m) => m.clone(),
            None => String::from_str("channel broke without a diagnostic"),
        }
    }

    /// Decide whether a call may go out, registering `waiter` under a fresh
    /// call ID when it may. Only an open channel admits calls; a completing
    /// or closed one refuses them with a transport error, and a broken one
    /// fails them with its terminal message.
    pub fn begin_call(&mut self, waiter: W) -> (r: CallAdmission)
        requires
            old(self).wf(),
        ensures
            final(self).wf(),
            final(self).lifecycle() == old(self).lifecycle(),
            final(self).shutdown_acknowledged() == old(self).shutdown_acknowledged(),
            final(self).terminal() == old(self).terminal(),
            match old(self).lifecycle() {
                ChannelLifecycle::Open => match r {
                    CallAdmission::Admitted(id) => {
                        &&& !old(self).pending().contains_key(id)
                        &&& forall|x: u32| x < id ==> old(self).pending().contains_key(x)
                        &&& final(self).pending() == old(self).pending().insert(id, waiter)
                    },
                    CallAdmission::Refused(e) => {
                        &&& e == RpcError::CallIdExhausted
                        &&& all_taken(old(self).pending().dom())
                        &&& final(self).pending() == old(self).pending()
                    },
                    CallAdmission::Broken(_) => false,
                },
                ChannelLifecycle::Broken => {
                    &&& r matches CallAdmission::Broken(m) && m@ == broken_text(old(self).terminal())
                    &&& final(self).pending() == old(self).pending()
                },
                _ => {
                    &&& r matches CallAdmission::Refused(RpcError::TransportError(m)) && m@
                        == "channel is shutting down or already closed"@
                    &&& final(self).pending() == old(self).pending()
                },
            },
    {
        match self.lifecycle {
            ChannelLifecycle::Open => {},
            ChannelLifecycle::Completing | ChannelLifecycle::Closed => {
                return CallAdmission::Refused(
                    RpcError::TransportError(
                        String::from_str("channel is shutting down or already closed"),
                    ),
                );
            },
            ChannelLifecycle::Broken => {
                return CallAdmission::Broken(self.broken_message());
            },
        }
        match self.pending_calls.allocate(waiter) {
            Ok(id) => CallAdmission::Admitted(id),
            Err(e) => CallAdmission::Refused(e),
        }
    }

    /// Give up a call whose request could not be encoded, with the
    /// encoder's `error`: the call is no longer pending, its waiter is
    /// dropped, and the caller gets an `EncodeError` carrying that error.
    pub fn abandon_call(&mut self, call_id: u32, error: String) -> (r: RpcError)
        requires
            old(self).wf(),
        ensures
            r == RpcError::EncodeError(error),
            final(self).wf(),
            final(self).pending() == old(self).pending().remove(call_id),
            final(self).lifecycle() == old(self).lifecycle(),
            final(self).shutdown_acknowledged() == old(self).shutdown_acknowledged(),
            final(self).terminal() == old(self).terminal(),
    {
        let _ = self.pending_calls.complete(call_id);
        RpcError::EncodeError(error)
    }

    /// Break the channel with `message`, unless it is already closed or
    /// broken. Returns the calls that were pending, which now fail with
    /// `message`; `None` when nothing changed.
    pub fn break_channel(&mut self, message: String) -> (r: Option<BTreeMap<u32, W>>)
        requires
            old(self).wf(),
        ensures
            final(self).wf(),
            old(self).breaks_to(*final(self), message@, r),
    {
        match self.lifecycle {
            ChannelLifecycle::Closed | ChannelLifecycle::Broken => None,
            _ => {
                self.lifecycle = ChannelLifecycle::Broken;
                self.terminal_message = Some(message);
                Some(self.pending_calls.take_all())
            },
        }
    }

    /// Take the response to `call_id`: the waiter of that call when it is
    /// pending; otherwise the channel breaks, since the server answered a
    /// call that was never made.
    pub fn route_response(&mut self, call_id: u32) -> (r: ReceiverAction<W>)
        requires
            old(self).wf(),
        ensures
            final(self).wf(),
            old(self).routes_to(*final(self), call_id, r),
    {
        match self.pending_calls.complete(call_id) {
            Some(w) => ReceiverAction::Deliver(w),
            None => {
                assert(self.pending() =~= old(self).pending());
                let mut message = String::from_str("received response for unknown call id ");
                push_decimal(&mut message, call_id as u64);
                let failed = self.break_channel(message.clone());
                ReceiverAction::Stop { message, failed }
            },
        }
    }

    /// Record that the server acknowledged a shutdown. An open channel
    /// starts completing. Returns whether waiters should be woken: `true`
    /// unless the channel is already closed or broken.
    pub fn acknowledge_shutdown(&mut self) -> (notify: bool)
        requires
            old(self).wf(),
        ensures
            final(self).wf(),
            old(self).acknowledges_to(*final(self), notify),
    {
        self.shutdown_acknowledged = true;
        match self.lifecycle {
            ChannelLifecycle::Open => {
                self.lifecycle = ChannelLifecycle::Completing;
                true
            },
            ChannelLifecycle::Completing => true,
            ChannelLifecycle::Closed | ChannelLifecycle::Broken => false,
        }
    }

    /// Decide what a header read by the receiver means: a response goes to
    /// its call, a channel error breaks the channel, and a completion
    /// acknowledges the shutdown.
    pub fn on_header(&mut self, header: HxClientBoundHeader) -> (r: ReceiverAction<W>)
        requires
            old(self).wf(),
        ensures
            final(self).wf(),
            match header {
                HxClientBoundHeader::ResponseSuccess { call_id }
                | HxClientBoundHeader::ResponseFailure { call_id } => old(self).routes_to(
                    *final(self),
                    call_id,
                    r,
                ),
                HxClientBoundHeader::ChannelError {  } => r matches ReceiverAction::Stop {
                    message,
                    failed,
                } && message@ == "remote channel error"@ && old(self).breaks_to(
                    *final(self),
                    message@,
                    failed,
                ),
                HxClientBoundHeader::Complete {  } => r matches ReceiverAction::Continue { notify }
                    && old(self).acknowledges_to(*final(self), notify),
            },
    {
        match header {
            HxClientBoundHeader::ResponseSuccess { call_id }
            | HxClientBoundHeader::ResponseFailure { call_id } => self.route_response(call_id),
            HxClientBoundHeader::ChannelError {  } => {
                let message = String::from_str("remote channel error");
                let failed = self.break_channel(message.clone());
                ReceiverAction::Stop { message, failed }
            },
            HxClientBoundHeader::Complete {  } => {
                let notify = self.acknowledge_shutdown();
                ReceiverAction::Continue { notify }
            },
        }
    }

    /// Take in the end of the inbound frames. It is graceful when the
    /// shutdown was acknowledged and no call is pending; otherwise the
    /// channel breaks and every pending call fails.
    pub fn finish_eof(&mut self) -> (r: EofOutcome<W>)
        requires
            old(self).wf(),
        ensures
            final(self).wf(),
            final(self).shutdown_acknowledged() == old(self).shutdown_acknowledged(),
            (old(self).shutdown_acknowledged() && old(self).pending().dom() == Set::<u32>::empty())
                ==> {
                &&& r is Graceful
                &&& final(self).lifecycle() == ChannelLifecycle::Closed
                &&& final(self).pending() == old(self).pending()
                &&& final(self).terminal() == old(self).terminal()
            },
            !(old(self).shutdown_acknowledged() && old(self).pending().dom() == Set::<u32>::empty())
                ==> {
                let message = if old(self).shutdown_acknowledged() {
                    "channel closed before all pending calls were answered"@
                } else {
                    "channel closed unexpectedly"@
                };
                &&& r matches EofOutcome::Broken { message: m, failed } && m@ == message
                    && failed@ == old(self).pending()
                &&& final(self).lifecycle() == ChannelLifecycle::Broken
                &&& final(self).terminal() == Some(message)
                &&& final(self).pending() == Map::<u32, W>::empty()
            },
    {
        if self.shutdown_acknowledged && self.pending_calls.is_empty() {
            self.lifecycle = ChannelLifecycle::Closed;
            EofOutcome::Graceful
        } else {
            let message = if self.shutdown_acknowledged {
                String::from_str("channel closed before all pending calls were answered")
            } else {
                String::from_str("channel closed unexpectedly")
            };
            self.lifecycle = ChannelLifecycle::Broken;
            self.terminal_message = Some(message.clone());
            let failed = self.pending_calls.take_all();
            EofOutcome::Broken { message, failed }
        }
    }

    /// Start a graceful shutdown. An open channel starts completing and the
    /// shutdown frame must be sent (`Ok(true)`); a completing or closed one
    /// needs nothing sent (`Ok(false)`); a broken one fails with its
    /// message.
    pub fn begin_complete(&mut self) -> (r: Result<bool, String>)
        requires
            old(self).wf(),
        ensures
            final(self).wf(),
            final(self).pending() == old(self).pending(),
            final(self).terminal() == old(self).terminal(),
            final(self).shutdown_acknowledged() == old(self).shutdown_acknowledged(),
            match old(self).lifecycle() {
                ChannelLifecycle::Open => r == Ok::<bool, String>(true) && final(self).lifecycle()
                    == ChannelLifecycle::Completing,
                ChannelLifecycle::Broken => r matches Err(m) && m@ == broken_text(
                    old(self).terminal(),
                ) && final(self).lifecycle() == old(self).lifecycle(),
                _ => r == Ok::<bool, String>(false) && final(self).lifecycle() == old(
                    self,
                ).lifecycle(),
            },
    {
        match self.lifecycle {
            ChannelLifecycle::Open => {
                self.lifecycle = ChannelLifecycle::Completing;
                Ok(true)
            },
            ChannelLifecycle::Completing | ChannelLifecycle::Closed => Ok(false),
            ChannelLifecycle::Broken => Err(self.broken_message()),
        }
    }

    /// Whether a channel being completed has reached its end.
    pub fn terminal_state(&self) -> (r: TerminalCheck)
        ensures
            match self.lifecycle() {
                ChannelLifecycle::Closed => r is Closed,
                ChannelLifecycle::Broken => r matches TerminalCheck::Broken(m) && m@ == broken_text(
                    self.terminal(),
                ),
                _ => r is Pending,
            },
    {
        match self.lifecycle {
            ChannelLifecycle::Closed => TerminalCheck::Closed,
            ChannelLifecycle::Broken => TerminalCheck::Broken(self.broken_message()),
            _ => TerminalCheck::Pending,
        }
    }

    /// The error of a call whose waiter was dropped without an answer: the
    /// channel's terminal message, or a message naming the call.
    pub fn dropped_waiter_message(&self, call_id: u32) -> (r: String)
        ensures
            r@ == match self.terminal() {
                Some(m) => m,
                None => "response waiter for call id "@ + decimal_text(call_id as nat)
                    + " was dropped"@,
            },
    {
        match &self.terminal_message {
            Some(m) => m.clone(),
            None => {
                let mut text = String::from_str("response waiter for call id ");
                push_decimal(&mut text, call_id as u64);
                text.append(" was dropped");
                text
            },
        }
    }
}

/// How the caller of a call reads the response frame routed to it: a
/// success carries the result (`Ok(true)`), a failure carries an `RpcError`
/// (`Ok(false)`); any other header is an error with this message.
pub fn classify_routed(header: HxClientBoundHeader) -> (r: Result<bool, String>)
    ensures
        match header {
            HxClientBoundHeader::ResponseSuccess { .. } => r == Ok::<bool, String>(true),
            HxClientBoundHeader::ResponseFailure { .. } => r == Ok::<bool, String>(false),
            HxClientBoundHeader::ChannelError {  } => r matches Err(m) && m@
                == "unexpected routed channel error frame"@,
            HxClientBoundHeader::Complete {  } => r matches Err(m) && m@
                == "unexpected routed shutdown acknowledgement frame"@,
        },
{
    match header {
        HxClientBoundHeader::ResponseSuccess { .. } => Ok(true),
        HxClientBoundHeader::ResponseFailure { .. } => Ok(false),
        HxClientBoundHeader::ChannelError {  } => Err(
            String::from_str("unexpected routed channel error frame"),
        ),
        HxClientBoundHeader::Complete {  } => Err(
            String::from_str("unexpected routed shutdown acknowledgement frame"),
        ),
    }
}

} // verus!
