//! The link broker: the decisions of the loop that owns the connection.
//!
//! One loop owns the byte stream. It reacts to one event at a time: an item
//! of the inbound stream, a command of a client, or the outcome of something
//! the broker asked for. The broker is the state of that loop and decides
//! what it does next; the loop itself, which reads, writes and waits, belongs
//! to the caller. Listeners and pending calls are known to the broker by the
//! numbers that the caller gave them.

use crate::error::Error;
use crate::frame::Frame;
use vstd::prelude::*;

verus! {

/// A command that a client hands to the broker.
#[derive(Clone, Debug, PartialEq, Eq)]
pub enum BrokerMessage {
    /// Registers a listener: it gets every frame that arrives from now on
    /// outside a call.
    AddListener { listener: u64 },
    /// Sends a frame and awaits the reply to it, which goes to `responder`.
    SendFrame { frame: Frame, responder: u64 },
}

/// What the loop reports to the broker.
#[derive(Debug, PartialEq, Eq)]
pub enum BrokerEvent {
    /// The next item of the inbound stream: a frame, an error of the decoder,
    /// or `None` where the stream has ended.
    Inbound(Option<Result<Frame, Error>>),
    /// The next command, or `None` where every client is gone.
    Command(Option<BrokerMessage>),
    /// The outcome of the write that the broker asked for.
    Written(Result<(), Error>),
    /// The outcome of handing a frame to one listener.
    Delivered { listener: u64, ok: bool },
}

/// What the loop has to do next.
#[derive(Debug, PartialEq, Eq)]
pub enum BrokerAction {
    /// Wait for the next inbound item or the next command, whichever comes
    /// first, and report it.
    Wait,
    /// Write the frame to the stream and report the outcome as `Written`.
    Write { frame: Frame },
    /// Wait for the next inbound item, and for nothing else, and report it.
    Read,
    /// Hand the frame to every listener of the broker and report each
    /// outcome as `Delivered`; then wait.
    Broadcast { frame: Frame },
    /// Hand the result to the responder; then wait.
    Reply { responder: u64, result: Result<Frame, Error> },
    /// Tell the responder that the modem is disconnected; then stop.
    Disconnect { responder: u64 },
    /// Stop: the connection is of no use any more.
    Stop,
}

/// Where the loop stands.
#[derive(Clone, Copy, Debug, PartialEq, Eq, Structural)]
pub enum Phase {
    /// No call is in flight.
    Idle,
    /// The frame of a call is being written.
    Writing { responder: u64 },
    /// The frame of a call was written; the next inbound item is its reply.
    Awaiting { responder: u64 },
    /// The loop has ended, for good.
    Stopped,
}

/// The listeners without `listener`, in their order.
pub open spec fn without(listeners: Seq<u64>, listener: u64) -> Seq<u64>
    decreases listeners.len(),
{
    if listeners.len() == 0 {
        listeners
    } else if listeners.last() == listener {
        without(listeners.drop_last(), listener)
    } else {
        without(listeners.drop_last(), listener).push(listeners.last())
    }
}

/// The state of the broker, as contracts see it.
pub struct BrokerState {
    /// The listeners, in the order in which they were registered.
    pub listeners: Seq<u64>,
    pub phase: Phase,
}

impl BrokerState {
    /// The state of a new broker.
    pub open spec fn initial() -> BrokerState {
        BrokerState { listeners: Seq::empty(), phase: Phase::Idle }
    }

    /// No listener is registered twice.
    pub open spec fn wf(self) -> bool {
        self.listeners.no_duplicates()
    }

    /// Whether `event` can come in this state. Commands are taken only while
    /// no call is in flight, and after the end; while a frame is being
    /// written only the outcome of the write counts, and after that only the
    /// next inbound item.
    pub open spec fn accepts(self, event: BrokerEvent) -> bool {
        match self.phase {
            Phase::Idle => event is Inbound || event is Command || event is Delivered,
            Phase::Writing { .. } => event is Written,
            Phase::Awaiting { .. } => event is Inbound,
            Phase::Stopped => event is Command,
        }
    }

    /// The state after `event`.
    pub open spec fn next(self, event: BrokerEvent) -> BrokerState {
        match (self.phase, event) {
            (Phase::Idle, BrokerEvent::Inbound(Some(Ok(_)))) => self,
            (Phase::Idle, BrokerEvent::Inbound(_)) => BrokerState {
                phase: Phase::Stopped,
                ..self
            },
            (Phase::Idle, BrokerEvent::Command(Some(BrokerMessage::AddListener { listener }))) => {
                if self.listeners.contains(listener) {
                    self
                } else {
                    BrokerState { listeners: self.listeners.push(listener), ..self }
                }
            },
            (
                Phase::Idle,
                BrokerEvent::Command(Some(BrokerMessage::SendFrame { responder, .. })),
            ) => BrokerState { phase: Phase::Writing { responder }, ..self },
            (Phase::Idle, BrokerEvent::Command(None)) => BrokerState {
                phase: Phase::Stopped,
                ..self
            },
            (Phase::Idle, BrokerEvent::Delivered { listener, ok }) => if ok {
                self
            } else {
                BrokerState { listeners: without(self.listeners, listener), ..self }
            },
            (Phase::Writing { responder }, BrokerEvent::Written(Ok(_))) => BrokerState {
                phase: Phase::Awaiting { responder },
                ..self
            },
            (Phase::Writing { .. }, BrokerEvent::Written(Err(_))) => BrokerState {
                phase: Phase::Idle,
                ..self
            },
            (Phase::Awaiting { .. }, BrokerEvent::Inbound(Some(_))) => BrokerState {
                phase: Phase::Idle,
                ..self
            },
            (Phase::Awaiting { .. }, BrokerEvent::Inbound(None)) => BrokerState {
                phase: Phase::Stopped,
                ..self
            },
            _ => self,
        }
    }

    /// What the loop has to do after `event`.
    pub open spec fn action(self, event: BrokerEvent) -> BrokerAction {
        match (self.phase, event) {
            (Phase::Idle, BrokerEvent::Inbound(Some(Ok(frame)))) => BrokerAction::Broadcast {
                frame,
            },
            (Phase::Idle, BrokerEvent::Inbound(_)) => BrokerAction::Stop,
            (Phase::Idle, BrokerEvent::Command(Some(BrokerMessage::AddListener { .. }))) => {
                BrokerAction::Wait
            },
            (
                Phase::Idle,
                BrokerEvent::Command(Some(BrokerMessage::SendFrame { frame, .. })),
            ) => BrokerAction::Write { frame },
            (Phase::Idle, BrokerEvent::Command(None)) => BrokerAction::Stop,
            (Phase::Idle, BrokerEvent::Delivered { .. }) => BrokerAction::Wait,
            (Phase::Writing { .. }, BrokerEvent::Written(Ok(_))) => BrokerAction::Read,
            (Phase::Writing { responder }, BrokerEvent::Written(Err(e))) => BrokerAction::Reply {
                responder,
                result: Err(e),
            },
            (Phase::Awaiting { responder }, BrokerEvent::Inbound(Some(result))) => {
                BrokerAction::Reply { responder, result }
            },
            (Phase::Awaiting { responder }, BrokerEvent::Inbound(None)) => {
                BrokerAction::Disconnect { responder }
            },
            (
                Phase::Stopped,
                BrokerEvent::Command(Some(BrokerMessage::SendFrame { responder, .. })),
            ) => BrokerAction::Disconnect { responder },
            _ => BrokerAction::Stop,
        }
    }

    /// The state after a run of events, one after the other.
    pub open spec fn after(self, events: Seq<BrokerEvent>) -> BrokerState
        decreases events.len(),
    {
        if events.len() == 0 {
            self
        } else {
            self.after(events.drop_last()).next(events.last())
        }
    }

    /// Whether each event of a run can come in the state that the events
    /// before it lead to.
    pub open spec fn admits(self, events: Seq<BrokerEvent>) -> bool
        decreases events.len(),
    {
        events.len() > 0 ==> self.admits(events.drop_last()) && self.after(
            events.drop_last(),
        ).accepts(events.last())
    }
}

/// The state of the loop that owns the connection.
pub struct Broker {
    listeners: Vec<u64>,
    phase: Phase,
}

impl View for Broker {
    type V = BrokerState;

    closed spec fn view(&self) -> BrokerState {
        BrokerState { listeners: self.listeners@, phase: self.phase }
    }
}

impl Broker {
    /// A broker without listeners and without a call in flight.
    pub fn new() -> (r: Broker)
        ensures
            r@ == BrokerState::initial(),
    {
        Broker { listeners: Vec::new(), phase: Phase::Idle }
    }

    /// Where the loop stands.
    pub fn phase(&self) -> (r: Phase)
        ensures
            r == self@.phase,
    {
        self.phase
    }

    /// The listeners that a broadcast goes to, in their order.
    pub fn listeners(&self) -> (r: &Vec<u64>)
        ensures
            r@ == self@.listeners,
    {
        &self.listeners
    }

    /// Whether `event` can come now.
    pub fn accepts(&self, event: &BrokerEvent) -> (r: bool)
        ensures
            r == self@.accepts(*event),
    {
        match self.phase {
            Phase::Idle => match event {
                BrokerEvent::Written(_) => false,
                _ => true,
            },
            Phase::Writing { .. } => match event {
                BrokerEvent::Written(_) => true,
                _ => false,
            },
            Phase::Awaiting { .. } => match event {
                BrokerEvent::Inbound(_) => true,
                _ => false,
            },
            Phase::Stopped => match event {
                BrokerEvent::Command(_) => true,
                _ => false,
            },
        }
    }

    fn has_listener(&self, listener: u64) -> (r: bool)
        ensures
            r == self@.listeners.contains(listener),
    {
        let mut i: usize = 0;
        while i < self.listeners.len()
            invariant
                i <= self.listeners@.len(),
                forall|j: int| 0 <= j < i ==> self.listeners@[j] != listener,
            decreases self.listeners@.len() - i,
        {
            if self.listeners[i] == listener {
                return true;
            }
            i = i + 1;
        }
        false
    }

    /// Registers a listener, unless it is registered already. After the end
    /// of the loop nobody listens any more: the call fails.
    pub fn listen(&mut self, listener: u64) -> (r: Result<(), Error>)
        requires
            old(self)@.phase is Idle || old(self)@.phase is Stopped,
        ensures
            final(self)@ == old(self)@.next(
                BrokerEvent::Command(Some(BrokerMessage::AddListener { listener })),
            ),
            r == if old(self)@.phase is Stopped {
                Err::<(), Error>(Error::Disconnected)
            } else {
                Ok::<(), Error>(())
            },
    {
        match self.phase {
            Phase::Idle => {
                if !self.has_listener(listener) {
                    self.listeners.push(listener);
                }
                Ok(())
            },
            _ => Err(Error::Disconnected),
        }
    }

    /// Takes a listener out, wherever it stands.
    fn forget(&mut self, listener: u64)
        ensures
            final(self).listeners@ == without(old(self).listeners@, listener),
            final(self).phase == old(self).phase,
    {
        let mut kept: Vec<u64> = Vec::new();
        let mut i: usize = 0;
        assert(self.listeners@.take(0) =~= Seq::<u64>::empty());
        while i < self.listeners.len()
            invariant
                i <= self.listeners@.len(),
                kept@ == without(self.listeners@.take(i as int), listener),
            decreases self.listeners@.len() - i,
        {
            assert(self.listeners@.take(i + 1).drop_last() =~= self.listeners@.take(i as int));
            let l = self.listeners[i];
            if l != listener {
                kept.push(l);
            }
            i = i + 1;
        }
        assert(self.listeners@.take(i as int) =~= self.listeners@);
        self.listeners = kept;
    }

    /// Begins a call: the frame is to be written, and the reply to it goes to
    /// `responder`. After the end of the loop the call fails at once.
    pub fn send(&mut self, frame: Frame, responder: u64) -> (action: BrokerAction)
        requires
            old(self)@.phase is Idle || old(self)@.phase is Stopped,
        ensures
            final(self)@ == old(self)@.next(
                BrokerEvent::Command(Some(BrokerMessage::SendFrame { frame, responder })),
            ),
            action == old(self)@.action(
                BrokerEvent::Command(Some(BrokerMessage::SendFrame { frame, responder })),
            ),
    {
        match self.phase {
            Phase::Idle => {
                self.phase = Phase::Writing { responder };
                BrokerAction::Write { frame }
            },
            _ => BrokerAction::Disconnect { responder },
        }
    }

    /// Takes one event, if it can come now, and says what the loop has to do
    /// next. An event that cannot come now changes nothing.
    pub fn try_step(&mut self, event: BrokerEvent) -> (action: Option<BrokerAction>)
        ensures
            old(self)@.accepts(event) ==> final(self)@ == old(self)@.next(event) && action == Some(
                old(self)@.action(event),
            ),
            !old(self)@.accepts(event) ==> final(self)@ == old(self)@ && action.is_none(),
    {
        if self.accepts(&event) {
            Some(self.step(event))
        } else {
            None
        }
    }

    /// Takes one event and says what the loop has to do next.
    pub fn step(&mut self, event: BrokerEvent) -> (action: BrokerAction)
        requires
            old(self)@.accepts(event),
        ensures
            final(self)@ == old(self)@.next(event),
            action == old(self)@.action(event),
    {
        match event {
            BrokerEvent::Inbound(item) => match self.phase {
                Phase::Awaiting { responder } => match item {
                    Some(result) => {
                        self.phase = Phase::Idle;
                        BrokerAction::Reply { responder, result }
                    },
                    None => {
                        self.phase = Phase::Stopped;
                        BrokerAction::Disconnect { responder }
                    },
                },
                _ => match item {
                    Some(Ok(frame)) => BrokerAction::Broadcast { frame },
                    _ => {
                        self.phase = Phase::Stopped;
                        BrokerAction::Stop
                    },
                },
            },
            BrokerEvent::Command(message) => match message {
                Some(BrokerMessage::AddListener { listener }) => {
                    match self.listen(listener) {
                        Ok(_) => BrokerAction::Wait,
                        Err(_) => BrokerAction::Stop,
                    }
                },
                Some(BrokerMessage::SendFrame { frame, responder }) => self.send(frame, responder),
                None => {
                    self.phase = Phase::Stopped;
                    BrokerAction::Stop
                },
            },
            BrokerEvent::Written(outcome) => match self.phase {
                Phase::Writing { responder } => match outcome {
                    Ok(_) => {
                        self.phase = Phase::Awaiting { responder };
                        BrokerAction::Read
                    },
                    Err(e) => {
                        self.phase = Phase::Idle;
                        BrokerAction::Reply { responder, result: Err(e) }
                    },
                },
                _ => BrokerAction::Stop,
            },
            BrokerEvent::Delivered { listener, ok } => {
                if !ok {
                    self.forget(listener);
                }
                BrokerAction::Wait
            },
        }
    }
}

/// What a sequence holds after one more element was put at its end.
proof fn lemma_push_contains(s: Seq<u64>, x: u64, y: u64)
    ensures
        s.push(x).contains(y) == (s.contains(y) || y == x),
{
    let grown = s.push(x);
    if s.contains(y) {
        let i = choose|i: int| 0 <= i < s.len() && s[i] == y;
        assert(grown[i] == y);
    }
    if y == x {
        assert(grown[s.len() as int] == y);
    }
    if grown.contains(y) {
        let i = choose|i: int| 0 <= i < grown.len() && grown[i] == y;
        if i < s.len() {
            assert(s[i] == y);
        }
    }
}

/// A sequence without duplicates stays so when an element that it does not
/// hold is put at its end.
proof fn lemma_push_apart(s: Seq<u64>, x: u64)
    requires
        s.no_duplicates(),
        !s.contains(x),
    ensures
        s.push(x).no_duplicates(),
{
    let grown = s.push(x);
    assert forall|i: int, j: int|
        0 <= i < grown.len() && 0 <= j < grown.len() && i != j implies grown[i] != grown[j] by {
        if i < s.len() {
            assert(s.contains(s[i]));
        }
        if j < s.len() {
            assert(s.contains(s[j]));
        }
    }
}

/// Taking a listener out leaves every other listener in, and leaves no
/// listener twice where none was twice before.
pub proof fn lemma_without(listeners: Seq<u64>, listener: u64)
    ensures
        !without(listeners, listener).contains(listener),
        forall|other: u64|
            other != listener ==> without(listeners, listener).contains(other)
                == listeners.contains(other),
        listeners.no_duplicates() ==> without(listeners, listener).no_duplicates(),
    decreases listeners.len(),
{
    if listeners.len() > 0 {
        let rest = listeners.drop_last();
        let last = listeners.last();
        let inner = without(rest, listener);
        lemma_without(rest, listener);
        assert(listeners =~= rest.push(last));
        assert forall|other: u64| other != listener implies without(
            listeners,
            listener,
        ).contains(other) == listeners.contains(other) by {
            lemma_push_contains(rest, last, other);
            lemma_push_contains(inner, last, other);
        }
        lemma_push_contains(inner, last, listener);
        if listeners.no_duplicates() {
            assert(rest.no_duplicates());
            assert(!rest.contains(last)) by {
                if rest.contains(last) {
                    let i = choose|i: int| 0 <= i < rest.len() && rest[i] == last;
                    assert(listeners[i] == listeners[listeners.len() - 1]);
                }
            }
            if last != listener {
                lemma_push_apart(inner, last);
            }
        }
    }
}

/// No event makes a listener appear twice.
pub proof fn lemma_listeners_stay_apart(state: BrokerState, event: BrokerEvent)
    requires
        state.wf(),
    ensures
        state.next(event).wf(),
{
    match (state.phase, event) {
        (Phase::Idle, BrokerEvent::Command(Some(BrokerMessage::AddListener { listener }))) => {
            if !state.listeners.contains(listener) {
                lemma_push_apart(state.listeners, listener);
            }
        },
        (Phase::Idle, BrokerEvent::Delivered { listener, ok }) => {
            lemma_without(state.listeners, listener);
        },
        _ => {},
    }
}

/// One call at a time. A frame is written only for a call that was taken
/// while no other was in flight, and from then until the reply is handed
/// over no command is taken: the writes of two calls never overlap.
pub proof fn lemma_one_call_at_a_time(state: BrokerState, event: BrokerEvent)
    requires
        state.accepts(event),
    ensures
        state.action(event) matches BrokerAction::Write { frame } ==> {
            &&& state.phase is Idle
            &&& event matches BrokerEvent::Command(
                Some(BrokerMessage::SendFrame { frame: sent, responder }),
            )
            &&& sent == frame
            &&& state.next(event).phase == Phase::Writing { responder }
        },
        state.phase is Writing || state.phase is Awaiting ==> !(event is Command),
{
}

/// A frame that arrives while no call is in flight goes to the listeners,
/// and to nobody as a reply; the state stays as it is.
pub proof fn lemma_idle_frame_goes_to_listeners(state: BrokerState, frame: Frame)
    requires
        state.phase is Idle,
    ensures
        state.accepts(BrokerEvent::Inbound(Some(Ok(frame)))),
        state.action(BrokerEvent::Inbound(Some(Ok(frame)))) == (BrokerAction::Broadcast {
            frame,
        }),
        state.next(BrokerEvent::Inbound(Some(Ok(frame)))) == state,
{
}

/// While a call is in flight, the last events were that call and, where the
/// frame has been written, the outcome of the write.
proof fn lemma_call_in_flight(events: Seq<BrokerEvent>)
    requires
        BrokerState::initial().admits(events),
    ensures
        match BrokerState::initial().after(events).phase {
            Phase::Writing { responder } => {
                &&& events.len() >= 1
                &&& events[events.len() - 1] matches BrokerEvent::Command(
                    Some(BrokerMessage::SendFrame { responder: caller, .. }),
                )
                &&& caller == responder
            },
            Phase::Awaiting { responder } => {
                &&& events.len() >= 2
                &&& events[events.len() - 1] matches BrokerEvent::Written(Ok(_))
                &&& events[events.len() - 2] matches BrokerEvent::Command(
                    Some(BrokerMessage::SendFrame { responder: caller, .. }),
                )
                &&& caller == responder
            },
            _ => true,
        },
    decreases events.len(),
{
    if events.len() > 0 {
        lemma_call_in_flight(events.drop_last());
    }
}

/// Each reply pairs with its own call. In every run of the loop from its
/// start, a result is handed to a responder only as the outcome of the call
/// of that responder: either its write failed, and the result is that
/// failure, or its frame was written, and the result is the very next item
/// of the inbound stream. Nothing happens between a call and its reply but
/// its own write.
pub proof fn lemma_reply_pairs_with_its_call(events: Seq<BrokerEvent>)
    requires
        events.len() > 0,
        BrokerState::initial().admits(events),
        BrokerState::initial().after(events.drop_last()).action(events.last()) is Reply,
    ensures
        ({
            let n = events.len() as int;
            let action = BrokerState::initial().after(events.drop_last()).action(events.last());
            let responder = action->Reply_responder;
            let result = action->Reply_result;
            ||| {
                &&& n >= 2
                &&& events[n - 1] matches BrokerEvent::Written(Err(e))
                &&& result == Err::<Frame, Error>(e)
                &&& events[n - 2] matches BrokerEvent::Command(
                    Some(BrokerMessage::SendFrame { responder: caller, .. }),
                )
                &&& caller == responder
            }
            ||| {
                &&& n >= 3
                &&& events[n - 1] == BrokerEvent::Inbound(Some(result))
                &&& events[n - 2] matches BrokerEvent::Written(Ok(_))
                &&& events[n - 3] matches BrokerEvent::Command(
                    Some(BrokerMessage::SendFrame { responder: caller, .. }),
                )
                &&& caller == responder
            }
        }),
{
    let before = events.drop_last();
    lemma_call_in_flight(before);
    let n = events.len() as int;
    assert(forall|i: int| 0 <= i < n - 1 ==> before[i] == events[i]);
}

/// The end is for good. Once the loop has stopped it stays stopped, whatever
/// is asked of it, and every call that still comes is told that the modem is
/// disconnected.
pub proof fn lemma_stopped_is_final(state: BrokerState, event: BrokerEvent)
    requires
        state.phase is Stopped,
    ensures
        state.next(event) == state,
        event matches BrokerEvent::Command(Some(BrokerMessage::SendFrame { responder, .. }))
            ==> state.action(event) == (BrokerAction::Disconnect { responder }),
        !(event matches BrokerEvent::Command(Some(BrokerMessage::SendFrame { .. })))
            ==> state.action(event) == BrokerAction::Stop,
{
}

/// The loop never waits for an event that the broker does not take. After
/// `Write` the outcome of the write is taken, after `Read` the next inbound
/// item, after `Wait`, `Broadcast` and `Reply` whatever comes first, and
/// after `Disconnect` and `Stop` the loop has stopped.
pub proof fn lemma_action_is_answerable(state: BrokerState, event: BrokerEvent)
    requires
        state.accepts(event),
    ensures
        match state.action(event) {
            BrokerAction::Write { .. } => state.next(event).phase is Writing,
            BrokerAction::Read => state.next(event).phase is Awaiting,
            BrokerAction::Wait | BrokerAction::Broadcast { .. } | BrokerAction::Reply { .. } => {
                state.next(event).phase is Idle
            },
            BrokerAction::Disconnect { .. } | BrokerAction::Stop => {
                state.next(event).phase is Stopped
            },
        },
{
}

} // verus!
