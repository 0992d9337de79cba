//! The device actor as a state machine. The actor owns the device session
//! and is the only one to touch it. It does no I/O itself: in every state
//! exactly one action is outstanding, a shell carries that action out, and
//! the outcome, handed to `step`, decides the next state and with it the next
//! action. Requests are taken one at a time and in the order of arrival.

use crate::device::{
    check_reply, confirm, fetch_frame, lookup_frame, set_frame, spec_check_reply, spec_confirm,
    spec_fetch_frame, spec_lookup_frame, spec_set_frame, Fault, Reply,
};
use crate::messages::Message;
use vstd::prelude::*;

verus! {

/// A step of connecting to the device, in the order in which they are taken.
#[derive(Clone, Copy, Debug, PartialEq, Eq)]
pub enum SetupStep {
    /// Find the device on the bus.
    Locate,
    /// Open it.
    Open,
    /// Let a kernel driver that holds the interface be detached.
    AutoDetach,
    /// Claim the interface of the command channel.
    ClaimInterface,
    /// Select the alternate setting of that interface.
    AltSetting,
}

/// The readiness signal: the actor is connected, or the step that failed.
pub type Readiness = Result<(), SetupStep>;

/// How far the request in hand has come.
#[derive(Clone, Copy, Debug, PartialEq, Eq)]
pub enum Transfer {
    /// The SET frame `frame` is being written.
    SetWrite { frame: [u8; 8] },
    /// The FETCH frame `request` is being written. `confirms` is the SET
    /// frame that this fetch is to confirm, if it follows one.
    FetchWrite { request: [u8; 4], confirms: Option<[u8; 8]> },
    /// The reply to the FETCH frame `request` is being read.
    FetchRead { request: [u8; 4], confirms: Option<[u8; 8]> },
    /// The reply is being handed to the caller.
    Deliver(Reply),
}

/// The state of the actor.
#[derive(Clone, Copy, Debug, PartialEq, Eq)]
pub enum ActorState {
    /// The given step of connecting is under way.
    Connecting(SetupStep),
    /// The given step has failed, and the failure is being signalled.
    Failed(SetupStep),
    /// The device is connected, and readiness is being signalled.
    Announcing,
    /// The actor waits for the next request.
    Ready,
    /// One request is in hand.
    Processing(Transfer),
    /// A shutdown was asked for, and its reply is being handed over.
    ShuttingDown,
    /// The actor has left its loop for good.
    Stopped,
}

/// What the shell is to do for the actor.
#[derive(Clone, Copy, Debug, PartialEq, Eq)]
pub enum Action {
    /// Carry out a step of connecting.
    Setup(SetupStep),
    /// Emit the readiness signal.
    SignalReady(Readiness),
    /// Take the next request from the queue.
    Receive,
    /// Write a FETCH frame to the device.
    WriteFetch([u8; 4]),
    /// Write a SET frame to the device.
    WriteSet([u8; 8]),
    /// Read an 8-byte reply from the device.
    Read,
    /// Fulfil the reply slot of the request in hand.
    Reply(Reply),
    /// Release the device and end.
    Stop,
}

/// The outcome of an action.
#[derive(Clone, Copy, Debug, PartialEq, Eq)]
pub enum Event {
    /// The action was carried out.
    Done,
    /// A step of connecting or a transfer failed, or a transfer timed out.
    Error,
    /// The request that was taken from the queue.
    Request(Message),
    /// The buffer that was read from the device.
    Data([u8; 8]),
}

/// The step of connecting that follows `step`, if there is one.
pub open spec fn spec_following(step: SetupStep) -> Option<SetupStep> {
    match step {
        SetupStep::Locate => Some(SetupStep::Open),
        SetupStep::Open => Some(SetupStep::AutoDetach),
        SetupStep::AutoDetach => Some(SetupStep::ClaimInterface),
        SetupStep::ClaimInterface => Some(SetupStep::AltSetting),
        SetupStep::AltSetting => None,
    }
}

/// The transfer that a request begins with; a shutdown begins none.
pub open spec fn spec_begin(message: Message) -> Option<Transfer> {
    match message {
        Message::QUIT => None,
        Message::FETCH(param) => Some(
            Transfer::FetchWrite { request: spec_fetch_frame(param), confirms: None },
        ),
        Message::SET((param, value)) => Some(
            Transfer::SetWrite { frame: spec_set_frame(param, value) },
        ),
    }
}

/// What the request in hand yields once `reply` was read for the FETCH
/// frame `request`: the value of an accepted reply; for a fetch that
/// confirms a SET, only if it is the value that was written.
pub open spec fn spec_settle(request: [u8; 4], confirms: Option<[u8; 8]>, reply: [u8; 8]) -> Reply {
    match spec_check_reply(request, reply) {
        Ok(value) => match confirms {
            Some(written) => spec_confirm(written, value),
            None => Ok(value),
        },
        Err(fault) => Err(fault),
    }
}

impl Action {
    /// Whether the action is a bulk transfer on the device.
    pub open spec fn is_transfer(self) -> bool {
        self is WriteFetch || self is WriteSet || self is Read
    }
}

impl Transfer {
    /// The transfer after `event`, if `event` is an outcome of this one.
    pub open spec fn spec_next(self, event: Event) -> Option<Transfer> {
        match (self, event) {
            (Transfer::SetWrite { frame }, Event::Done) => Some(
                Transfer::FetchWrite { request: spec_lookup_frame(frame), confirms: Some(frame) },
            ),
            (Transfer::FetchWrite { request, confirms }, Event::Done) => Some(
                Transfer::FetchRead { request, confirms },
            ),
            (Transfer::FetchRead { request, confirms }, Event::Data(reply)) => Some(
                Transfer::Deliver(spec_settle(request, confirms, reply)),
            ),
            (Transfer::SetWrite { .. }, Event::Error) => Some(
                Transfer::Deliver(Err(Fault::Transport)),
            ),
            (Transfer::FetchWrite { .. }, Event::Error) => Some(
                Transfer::Deliver(Err(Fault::Transport)),
            ),
            (Transfer::FetchRead { .. }, Event::Error) => Some(
                Transfer::Deliver(Err(Fault::Transport)),
            ),
            _ => None,
        }
    }

    /// The action that is outstanding in this transfer.
    pub open spec fn spec_action(self) -> Action {
        match self {
            Transfer::SetWrite { frame } => Action::WriteSet(frame),
            Transfer::FetchWrite { request, .. } => Action::WriteFetch(request),
            Transfer::FetchRead { .. } => Action::Read,
            Transfer::Deliver(reply) => Action::Reply(reply),
        }
    }
}

impl ActorState {
    /// The state after `event`, if `event` is an outcome of the action that
    /// is outstanding in this state. Any other event is refused.
    pub open spec fn spec_next(self, event: Event) -> Option<ActorState> {
        match (self, event) {
            (ActorState::Connecting(step), Event::Done) => match spec_following(step) {
                Some(following) => Some(ActorState::Connecting(following)),
                None => Some(ActorState::Announcing),
            },
            (ActorState::Connecting(step), Event::Error) => Some(ActorState::Failed(step)),
            (ActorState::Failed(_), Event::Done) => Some(ActorState::Stopped),
            (ActorState::Announcing, Event::Done) => Some(ActorState::Ready),
            (ActorState::Ready, Event::Request(message)) => match spec_begin(message) {
                Some(transfer) => Some(ActorState::Processing(transfer)),
                None => Some(ActorState::ShuttingDown),
            },
            (ActorState::Processing(Transfer::Deliver(_)), Event::Done) => Some(ActorState::Ready),
            (ActorState::Processing(transfer), _) => match transfer.spec_next(event) {
                Some(next) => Some(ActorState::Processing(next)),
                None => None,
            },
            (ActorState::ShuttingDown, Event::Done) => Some(ActorState::Stopped),
            _ => None,
        }
    }

    /// The action that is outstanding in this state. There is always
    /// exactly one; in `Stopped` it is to stop, and has no outcome.
    pub open spec fn spec_action(self) -> Action {
        match self {
            ActorState::Connecting(step) => Action::Setup(step),
            ActorState::Failed(step) => Action::SignalReady(Err(step)),
            ActorState::Announcing => Action::SignalReady(Ok(())),
            ActorState::Ready => Action::Receive,
            ActorState::Processing(transfer) => transfer.spec_action(),
            ActorState::ShuttingDown => Action::Reply(Ok([0u8, 0u8, 0u8, 0u8])),
            ActorState::Stopped => Action::Stop,
        }
    }

    /// The state after `event`, a refused event leaving it as it is.
    pub open spec fn spec_after(self, event: Event) -> ActorState {
        match self.spec_next(event) {
            Some(next) => next,
            None => self,
        }
    }

    /// The state after a run of events, each handed to the actor in turn.
    pub open spec fn spec_run(self, events: Seq<Event>) -> ActorState
        decreases events.len(),
    {
        if events.len() == 0 {
            self
        } else {
            self.spec_after(events[0]).spec_run(events.skip(1))
        }
    }

    /// Whether `event` is a request that the actor takes in this state.
    pub open spec fn takes(self, event: Event) -> bool {
        event is Request && self.spec_next(event) is Some
    }

    /// Whether the actor, on `event` in this state, has a reply handed over.
    pub open spec fn replies_on(self, event: Event) -> bool {
        self.spec_next(event) is Some && self.spec_after(event).spec_action() is Reply
    }

    /// Whether the actor, on `event` in this state, begins a bulk transfer.
    pub open spec fn transfers_on(self, event: Event) -> bool {
        self.spec_next(event) is Some && self.spec_after(event).spec_action().is_transfer()
    }

    /// How many requests the actor takes in a run of events.
    pub open spec fn spec_taken(self, events: Seq<Event>) -> nat
        decreases events.len(),
    {
        if events.len() == 0 {
            0
        } else {
            let rest = self.spec_after(events[0]).spec_taken(events.skip(1));
            if self.takes(events[0]) {
                rest + 1
            } else {
                rest
            }
        }
    }

    /// How many replies the actor has handed over in a run of events.
    pub open spec fn spec_replied(self, events: Seq<Event>) -> nat
        decreases events.len(),
    {
        if events.len() == 0 {
            0
        } else {
            let rest = self.spec_after(events[0]).spec_replied(events.skip(1));
            if self.replies_on(events[0]) {
                rest + 1
            } else {
                rest
            }
        }
    }

    /// How many bulk transfers the actor begins in a run of events.
    pub open spec fn spec_transfers(self, events: Seq<Event>) -> nat
        decreases events.len(),
    {
        if events.len() == 0 {
            0
        } else {
            let rest = self.spec_after(events[0]).spec_transfers(events.skip(1));
            if self.transfers_on(events[0]) {
                rest + 1
            } else {
                rest
            }
        }
    }

    /// Whether the actor, on `event` in this state, has readiness signalled.
    pub open spec fn signals_on(self, event: Event) -> bool {
        self.spec_next(event) is Some && self.spec_after(event).spec_action() is SignalReady
    }

    /// How often the actor has readiness signalled in a run of events.
    pub open spec fn spec_signalled(self, events: Seq<Event>) -> nat
        decreases events.len(),
    {
        if events.len() == 0 {
            0
        } else {
            let rest = self.spec_after(events[0]).spec_signalled(events.skip(1));
            if self.signals_on(events[0]) {
                rest + 1
            } else {
                rest
            }
        }
    }

    /// The number of requests in hand whose reply is still owed: one while
    /// a request is on its way through the device, else none.
    pub open spec fn owes(self) -> nat {
        match self {
            ActorState::Processing(Transfer::Deliver(_)) => 0,
            ActorState::Processing(_) => 1,
            _ => 0,
        }
    }

    /// Whether a bulk transfer is outstanding in this state.
    pub open spec fn in_transfer(self) -> bool {
        self.spec_action().is_transfer()
    }

    /// Whether the actor has been told to shut down.
    pub open spec fn closing(self) -> bool {
        self is ShuttingDown || self is Stopped
    }

    /// The state in which an actor starts: about to look for the device.
    pub fn new() -> (state: ActorState)
        ensures
            state == ActorState::Connecting(SetupStep::Locate),
    {
        ActorState::Connecting(SetupStep::Locate)
    }

    /// The action that the shell is to carry out now.
    pub fn action(&self) -> (action: Action)
        ensures
            action == self.spec_action(),
    {
        match self {
            ActorState::Connecting(step) => Action::Setup(*step),
            ActorState::Failed(step) => Action::SignalReady(Err(*step)),
            ActorState::Announcing => Action::SignalReady(Ok(())),
            ActorState::Ready => Action::Receive,
            ActorState::Processing(transfer) => match transfer {
                Transfer::SetWrite { frame } => Action::WriteSet(*frame),
                Transfer::FetchWrite { request, .. } => Action::WriteFetch(*request),
                Transfer::FetchRead { .. } => Action::Read,
                Transfer::Deliver(reply) => Action::Reply(*reply),
            },
            ActorState::ShuttingDown => Action::Reply(Ok([0, 0, 0, 0])),
            ActorState::Stopped => Action::Stop,
        }
    }

    /// Takes the outcome of the outstanding action and moves on. Returns the
    /// action to carry out next. An event that is no outcome of the
    /// outstanding action is refused: the state stays, and there is no
    /// action.
    pub fn step(&mut self, event: Event) -> (action: Option<Action>)
        ensures
            match old(self).spec_next(event) {
                Some(next) => *final(self) == next && action == Some(next.spec_action()),
                None => *final(self) == *old(self) && action is None,
            },
    {
        let next = match *self {
            ActorState::Connecting(step) => match event {
                Event::Done => match following(step) {
                    Some(following) => Some(ActorState::Connecting(following)),
                    None => Some(ActorState::Announcing),
                },
                Event::Error => Some(ActorState::Failed(step)),
                _ => None,
            },
            ActorState::Failed(_) => match event {
                Event::Done => Some(ActorState::Stopped),
                _ => None,
            },
            ActorState::Announcing => match event {
                Event::Done => Some(ActorState::Ready),
                _ => None,
            },
            ActorState::Ready => match event {
                Event::Request(message) => match begin(&message) {
                    Some(transfer) => Some(ActorState::Processing(transfer)),
                    None => Some(ActorState::ShuttingDown),
                },
                _ => None,
            },
            ActorState::Processing(transfer) => match transfer {
                Transfer::SetWrite { frame } => match event {
                    Event::Done => Some(
                        ActorState::Processing(
                            Transfer::FetchWrite {
                                request: lookup_frame(&frame),
                                confirms: Some(frame),
                            },
                        ),
                    ),
                    Event::Error => Some(
                        ActorState::Processing(Transfer::Deliver(Err(Fault::Transport))),
                    ),
                    _ => None,
                },
                Transfer::FetchWrite { request, confirms } => match event {
                    Event::Done => Some(
                        ActorState::Processing(Transfer::FetchRead { request, confirms }),
                    ),
                    Event::Error => Some(
                        ActorState::Processing(Transfer::Deliver(Err(Fault::Transport))),
                    ),
                    _ => None,
                },
                Transfer::FetchRead { request, confirms } => match event {
                    Event::Data(reply) => Some(
                        ActorState::Processing(
                            Transfer::Deliver(settle(&request, &confirms, &reply)),
                        ),
                    ),
                    Event::Error => Some(
                        ActorState::Processing(Transfer::Deliver(Err(Fault::Transport))),
                    ),
                    _ => None,
                },
                Transfer::Deliver(_) => match event {
                    Event::Done => Some(ActorState::Ready),
                    _ => None,
                },
            },
            ActorState::ShuttingDown => match event {
                Event::Done => Some(ActorState::Stopped),
                _ => None,
            },
            ActorState::Stopped => None,
        };
        match next {
            Some(state) => {
                *self = state;
                Some(state.action())
            },
            None => None,
        }
    }
}

/// The step of connecting that follows `step`; none after the last.
pub fn following(step: SetupStep) -> (next: Option<SetupStep>)
    ensures
        next == spec_following(step),
{
    match step {
        SetupStep::Locate => Some(SetupStep::Open),
        SetupStep::Open => Some(SetupStep::AutoDetach),
        SetupStep::AutoDetach => Some(SetupStep::ClaimInterface),
        SetupStep::ClaimInterface => Some(SetupStep::AltSetting),
        SetupStep::AltSetting => None,
    }
}

/// Frames a request: the transfer that it begins with, or none for a
/// shutdown, which goes to no device.
pub fn begin(message: &Message) -> (transfer: Option<Transfer>)
    ensures
        transfer == spec_begin(*message),
{
    match message {
        Message::QUIT => None,
        Message::FETCH(param) => Some(
            Transfer::FetchWrite { request: fetch_frame(param), confirms: None },
        ),
        Message::SET((param, value)) => Some(
            Transfer::SetWrite { frame: set_frame(param, *value) },
        ),
    }
}

/// Settles the request in hand on the reply that was read: validates the
/// reply against the FETCH frame, and for a fetch that confirms a SET,
/// holds the value against the one that was written.
pub fn settle(request: &[u8; 4], confirms: &Option<[u8; 8]>, reply: &[u8; 8]) -> (result: Reply)
    ensures
        result == spec_settle(*request, *confirms, *reply),
{
    match check_reply(request, reply) {
        Ok(value) => match confirms {
            Some(written) => confirm(written, value),
            None => Ok(value),
        },
        Err(fault) => Err(fault),
    }
}

/// One thing at a time. Only a state with a request in hand has a transfer
/// outstanding, and it answers to nothing but the outcome of that transfer;
/// a request is taken in `Ready` alone, where no transfer is outstanding and
/// no reply owed; and whatever a step begins is the one action of the state
/// it leads to. So no transfer is begun before the one before it is over.
pub proof fn lemma_one_at_a_time(state: ActorState, event: Event)
    ensures
        state.in_transfer() ==> state is Processing && state.owes() == 1,
        state.in_transfer() && state.spec_next(event) is Some ==> !(event is Request),
        state.takes(event) <==> state == ActorState::Ready && event is Request,
        state.takes(event) ==> !state.in_transfer() && state.owes() == 0,
        state.spec_action() == Action::Receive <==> state == ActorState::Ready,
        state.transfers_on(event) ==> state.spec_after(event).owes() == 1 && (state.takes(event)
            || state.in_transfer()),
{
}

/// A value is earned at the device. The all-zero reply of a shutdown
/// aside, a reply is handed over only for a request that was on its way
/// through the device; it carries a fault for a transfer that failed; and
/// it carries a value only when a reply was read for the request and the
/// value is what that reply settles to.
pub proof fn lemma_replies_are_earned(state: ActorState, event: Event)
    requires
        state.replies_on(event),
    ensures
        state.spec_after(event) == ActorState::ShuttingDown <==> event == Event::Request(
            Message::QUIT,
        ),
        state.spec_after(event) == ActorState::ShuttingDown ==> state == ActorState::Ready,
        state.spec_after(event) != ActorState::ShuttingDown ==> state.in_transfer() && (event
            is Error || event is Data),
        event is Error ==> state.spec_after(event).spec_action() == Action::Reply(
            Err(Fault::Transport),
        ),
        event matches Event::Data(reply) ==> (state matches ActorState::Processing(
            Transfer::FetchRead { request, confirms },
        ) && state.spec_after(event).spec_action() == Action::Reply(
            spec_settle(request, confirms, reply),
        )),
{
}

/// Readiness is signalled once. Over any run of events, an actor that
/// starts out connecting has readiness signalled exactly once by the time
/// that connecting is over, one way or the other, and not before; an actor
/// that is past connecting signals nothing more.
pub proof fn lemma_signals_once(state: ActorState, events: Seq<Event>)
    ensures
        state.spec_signalled(events) + (if state.spec_run(events) is Connecting {
            1nat
        } else {
            0nat
        }) == (if state is Connecting {
            1nat
        } else {
            0nat
        }),
        state is Connecting && state.spec_run(events) == ActorState::Ready
            ==> state.spec_signalled(events) == 1,
    decreases events.len(),
{
    if events.len() > 0 {
        lemma_signals_once(state.spec_after(events[0]), events.skip(1));
    }
}

/// Each request gets one reply: on every step, a request taken or already
/// owed a reply is either answered now or owed after.
pub proof fn lemma_step_accounts(state: ActorState, event: Event)
    ensures
        (if state.takes(event) {
            1nat
        } else {
            0nat
        }) + state.owes() == (if state.replies_on(event) {
            1nat
        } else {
            0nat
        }) + state.spec_after(event).owes(),
{
}

/// Each request gets exactly one reply, and gets it before the next
/// request is taken: over any run of events, the requests taken and the
/// reply owed at the start make up the replies handed over and the reply
/// owed at the end, and never more than one reply is owed.
pub proof fn lemma_replies_account(state: ActorState, events: Seq<Event>)
    ensures
        state.spec_taken(events) + state.owes() == state.spec_replied(events) + state.spec_run(
            events,
        ).owes(),
        state.spec_run(events).owes() <= 1,
    decreases events.len(),
{
    if events.len() > 0 {
        lemma_step_accounts(state, events[0]);
        lemma_replies_account(state.spec_after(events[0]), events.skip(1));
    }
}

/// A run of events can be cut anywhere: the second part goes on from the
/// state that the first part ends in, and the counts add up.
pub proof fn lemma_run_split(state: ActorState, events: Seq<Event>, at: int)
    requires
        0 <= at <= events.len(),
    ensures
        state.spec_run(events) == state.spec_run(events.take(at)).spec_run(events.skip(at)),
        state.spec_taken(events) == state.spec_taken(events.take(at)) + state.spec_run(
            events.take(at),
        ).spec_taken(events.skip(at)),
        state.spec_replied(events) == state.spec_replied(events.take(at)) + state.spec_run(
            events.take(at),
        ).spec_replied(events.skip(at)),
        state.spec_transfers(events) == state.spec_transfers(events.take(at)) + state.spec_run(
            events.take(at),
        ).spec_transfers(events.skip(at)),
    decreases at,
{
    if at == 0 {
        assert(events.take(0).len() == 0);
        assert(events.skip(0) =~= events);
    } else {
        let rest = events.skip(1);
        lemma_run_split(state.spec_after(events[0]), rest, at - 1);
        assert(events.take(at)[0] == events[0]);
        assert(events.take(at).skip(1) =~= rest.take(at - 1));
        assert(rest.skip(at - 1) =~= events.skip(at));
    }
}

/// After a shutdown nothing is served: from the moment the actor is told to
/// shut down, whatever events follow, it takes no request, hands over no
/// reply, begins no transfer, and never leaves its last two states.
pub proof fn lemma_nothing_after_shutdown(state: ActorState, events: Seq<Event>)
    requires
        state.closing(),
    ensures
        state.spec_run(events).closing(),
        state.spec_taken(events) == 0,
        state.spec_replied(events) == 0,
        state.spec_transfers(events) == 0,
        state == ActorState::Stopped ==> state.spec_run(events) == ActorState::Stopped,
    decreases events.len(),
{
    if events.len() > 0 {
        lemma_nothing_after_shutdown(state.spec_after(events[0]), events.skip(1));
    }
}

/// A shutdown drains the queue in order. Let the actor, ready and owing
/// nothing, be handed a run of events of which the one at `at` is a
/// shutdown that it takes. Then every request taken before it has had its
/// reply before the shutdown is taken, and no transfer is outstanding; the
/// shutdown is answered at once with the all-zero value; and after it no
/// request is taken, no reply handed over and no transfer begun.
pub proof fn lemma_shutdown_drains(events: Seq<Event>, at: int)
    requires
        0 <= at < events.len(),
        events[at] == Event::Request(Message::QUIT),
        ActorState::Ready.spec_run(events.take(at)).takes(events[at]),
    ensures
        ActorState::Ready.spec_replied(events.take(at)) == ActorState::Ready.spec_taken(
            events.take(at),
        ),
        ActorState::Ready.spec_run(events.take(at)) == ActorState::Ready,
        ActorState::Ready.spec_run(events.take(at + 1)) == ActorState::ShuttingDown,
        ActorState::ShuttingDown.spec_action() == Action::Reply(Ok([0u8, 0u8, 0u8, 0u8])),
        ActorState::Ready.spec_taken(events) == ActorState::Ready.spec_taken(events.take(at)) + 1,
        ActorState::Ready.spec_replied(events) == ActorState::Ready.spec_replied(events.take(at))
            + 1,
        ActorState::Ready.spec_transfers(events) == ActorState::Ready.spec_transfers(
            events.take(at),
        ),
        ActorState::Ready.spec_run(events).closing(),
{
    let start = ActorState::Ready;
    let before = start.spec_run(events.take(at));
    lemma_one_at_a_time(before, events[at]);
    lemma_replies_account(start, events.take(at));
    lemma_run_split(start, events, at);
    let tail = events.skip(at);
    assert(tail[0] == events[at]);
    assert(before.spec_after(tail[0]) == ActorState::ShuttingDown);
    lemma_nothing_after_shutdown(ActorState::ShuttingDown, tail.skip(1));
    lemma_run_split(start, events.take(at + 1), at);
    assert(events.take(at + 1).take(at) =~= events.take(at));
    assert(events.take(at + 1).skip(at) =~= seq![events[at]]);
    let one = seq![events[at]];
    assert(one.skip(1).len() == 0);
    assert(before.spec_run(one) == before.spec_after(one[0]).spec_run(one.skip(1)));
}

/// A failure to connect is final: once a step of connecting has failed, the
/// actor never becomes ready, takes no request and begins no transfer; the
/// one thing it still does is to end.
pub proof fn lemma_failure_is_final(step: SetupStep, events: Seq<Event>)
    ensures
        ActorState::Failed(step).spec_run(events) == ActorState::Failed(step)
            || ActorState::Failed(step).spec_run(events) == ActorState::Stopped,
        ActorState::Failed(step).spec_taken(events) == 0,
        ActorState::Failed(step).spec_replied(events) == 0,
        ActorState::Failed(step).spec_transfers(events) == 0,
    decreases events.len(),
{
    if events.len() > 0 {
        let next = ActorState::Failed(step).spec_after(events[0]);
        if next == ActorState::Stopped {
            lemma_nothing_after_shutdown(next, events.skip(1));
        } else {
            lemma_failure_is_final(step, events.skip(1));
        }
    }
}

} // verus!
