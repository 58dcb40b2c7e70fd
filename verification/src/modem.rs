//! The modem orchestrator: retries, timeouts, acknowledgements and linking.
//!
//! An operation of the modem is a conversation with the broker: subscribe,
//! send a frame, sleep before a retry, listen for a frame, and so on. The
//! modem decides each step from the outcome of the one before. It does none
//! of them itself: it hands out an action, the caller carries it out and
//! reports the outcome as an event. One operation runs at a time; starting
//! another abandons the one that runs.

use crate::address::Address;
use crate::error::Error;
use crate::flags::MessageFlags;
use crate::frame::{AllLinkComplete, AllLinkMode, AllLinkRecord, Frame, ModemInfo};
use crate::message::{Command, Message};
use vstd::prelude::*;

verus! {

/// How often a frame is sent before a refusal is reported.
pub const NUM_RETRIES: u8 = 20;

/// The delay between a refusal and the next attempt, in milliseconds.
pub const RETRY_DELAY_MILLIS: u64 = 250;

/// The time that an acknowledgement of a message is waited for where the
/// caller names none, in milliseconds: 10 seconds.
pub const DEFAULT_TIMEOUT_MILLIS: u64 = 10000;

/// The two subscriptions that an operation can hold with the broker.
#[derive(Clone, Copy, Debug, PartialEq, Eq, Structural)]
pub enum Listener {
    /// The one on which a link cycle or the link database is followed.
    Frames,
    /// The one on which the acknowledgement of a message is awaited.
    Messages,
}

/// The outcome of an action, as the caller reports it.
#[derive(Debug, PartialEq, Eq)]
pub enum ModemEvent {
    /// The broker took the subscription, or failed to.
    Subscribed(Result<(), Error>),
    /// The broker wrote the frame and got this reply, or failed to.
    Sent(Result<Frame, Error>),
    /// The next frame of the subscription; `None` where it has ended.
    Heard(Option<Frame>),
    /// An action that has no result is done: a sleep, the end of a
    /// subscription, the start or the end of the timer.
    Done,
    /// The timer went off before the action was done.
    TimedOut,
}

/// What an operation ends with.
#[derive(Clone, Copy, Debug, PartialEq, Eq)]
pub enum Outcome {
    /// The info of the modem.
    Info(ModemInfo),
    /// The link database was read; the modem holds the records.
    Links,
    /// The acknowledgement of a message, or the message itself where the
    /// subscription ended before one came.
    Message(Message),
    /// The result of a link cycle.
    Linked(AllLinkComplete),
    /// The operation failed.
    Failed(Error),
}

/// What the caller has to do next. Each action but the last is answered by
/// one event. While the timer runs, the event is `TimedOut` where the timer
/// goes off first.
#[derive(Debug, PartialEq, Eq)]
pub enum ModemAction {
    /// Subscribe to the frames of the broker; answer with `Subscribed`.
    Subscribe { listener: Listener },
    /// End the subscription, if there is one; answer with `Done`.
    Unsubscribe { listener: Listener },
    /// Have the broker send the frame; answer with `Sent`.
    Send { frame: Frame },
    /// Sleep; answer with `Done`.
    Sleep { millis: u64 },
    /// Take the next frame of the subscription; answer with `Heard`.
    Listen { listener: Listener },
    /// Start the timer; answer with `Done`.
    Arm { millis: u64 },
    /// Drop the timer, if it runs; answer with `Done`.
    Disarm,
    /// The operation has ended. Subscriptions and timer go with it.
    Complete(Outcome),
}

/// Who sends a message: the caller, or a link cycle at its start or end.
#[derive(Clone, Copy, Debug, PartialEq, Eq, Structural)]
pub enum Within {
    /// The message is the operation.
    Alone,
    /// A link cycle asks the device to enter linking mode.
    LinkAsk,
    /// A link cycle asks the device to leave linking mode.
    LinkRelease,
}

/// Where an operation stands.
#[derive(Clone, Copy, Debug, PartialEq, Eq, Structural)]
pub enum Stage {
    /// No operation runs.
    Idle,
    /// The request for the info of the modem is being sent.
    Info,
    /// The link database: subscribing.
    LinksSubscribe,
    /// The link database: the request for the first record is being sent.
    LinksFirst,
    /// The link database: waiting for a record.
    LinksListen,
    /// The link database: the request for the next record is being sent.
    LinksNext,
    /// A message: the timer is being started.
    MessageArm(Within),
    /// A message: subscribing.
    MessageSubscribe(Within),
    /// A message: its frame is being sent.
    MessageSend(Within),
    /// A message: waiting for the acknowledgement of the device.
    MessageAwait(Within),
    /// A message: the subscription is being ended.
    MessageUnsubscribe(Within),
    /// A message: the timer is being dropped.
    MessageDisarm(Within),
    /// A link cycle: the modem is told to leave any earlier linking mode.
    LinkCancel,
    /// A link cycle: subscribing.
    LinkSubscribe,
    /// A link cycle: the modem is told to enter linking mode.
    LinkStart,
    /// A link cycle: waiting for its end.
    LinkWait,
    /// A link cycle: the subscription is being ended.
    LinkUnsubscribe,
    /// A link cycle: the modem is told to leave linking mode.
    LinkClose,
}

/// The state of the modem but for the records of the link database.
#[derive(Clone, Copy, Debug)]
pub struct Core {
    pub stage: Stage,
    /// How often the frame in flight can still be sent again.
    pub retries: u8,
    /// Whether the modem sleeps before it sends the frame in flight again.
    pub backoff: bool,
    /// The message that is being sent.
    pub message: Message,
    /// The time allowed for the message, in milliseconds.
    pub timeout: u64,
    /// What sending the message has come to.
    pub pending: Result<Message, Error>,
    /// The device of the link cycle, if it has one.
    pub address: Option<Address>,
    /// The mode of the link cycle.
    pub mode: AllLinkMode,
    /// The group of the link cycle.
    pub group: u8,
    /// How the link cycle ended, once it has.
    pub linked: Option<AllLinkComplete>,
}

impl Core {
    /// The state in which no operation has run yet.
    pub open spec fn fresh() -> Core {
        Core {
            stage: Stage::Idle,
            retries: 0,
            backoff: false,
            message: Message::initial(),
            timeout: 0,
            pending: Ok(Message::initial()),
            address: None,
            mode: AllLinkMode::Auto,
            group: 0,
            linked: None,
        }
    }

    /// The mode of the link cycle is one that can be sent.
    pub open spec fn wf(self) -> bool {
        self.mode != AllLinkMode::NoLink
    }

    /// Whether a frame is being sent with retries.
    pub open spec fn sending(self) -> bool {
        match self.stage {
            Stage::Info => true,
            Stage::LinksFirst => true,
            Stage::MessageSend(_) => true,
            Stage::LinkCancel => true,
            Stage::LinkStart => true,
            Stage::LinkClose => true,
            _ => false,
        }
    }

    /// The frame that the stage sends.
    pub open spec fn frame_in_flight(self) -> Frame {
        match self.stage {
            Stage::Info => Frame::GetModemInfo,
            Stage::LinksFirst => Frame::GetFirstAllLinkRecord,
            Stage::LinksNext => Frame::GetNextAllLinkRecord,
            Stage::MessageSend(_) => self.message.send_frame(),
            Stage::LinkStart => Frame::StartAllLink { mode: self.mode, group: self.group },
            _ => Frame::CancelAllLink,
        }
    }

    /// The message that a link cycle sends to its device.
    pub open spec fn link_message(self, to: Address, cmd1: Command) -> Message {
        Message {
            to,
            cmd1,
            cmd2: Command::of_byte(self.group),
            flags: MessageFlags { bits: MessageFlags::EXTENDED },
            ..Message::initial()
        }
    }

    /// What a link cycle ends with: its result, or an unexpected response
    /// where the subscription ended before the cycle did.
    pub open spec fn link_outcome(self) -> Outcome {
        match self.linked {
            Some(complete) => Outcome::Linked(complete),
            None => Outcome::Failed(Error::UnexpectedResponse),
        }
    }

    /// Whether `event` can come in this state.
    pub open spec fn accepts(self, event: ModemEvent) -> bool {
        match self.stage {
            Stage::Idle => false,
            Stage::Info | Stage::LinksFirst | Stage::LinkCancel | Stage::LinkStart
            | Stage::LinkClose => if self.backoff {
                event is Done
            } else {
                event is Sent
            },
            Stage::MessageSend(_) => event is TimedOut || (if self.backoff {
                event is Done
            } else {
                event is Sent
            }),
            Stage::LinksSubscribe | Stage::LinkSubscribe => event is Subscribed,
            Stage::MessageSubscribe(_) => event is Subscribed || event is TimedOut,
            Stage::LinksListen | Stage::LinkWait => event is Heard,
            Stage::MessageAwait(_) => event is Heard || event is TimedOut,
            Stage::LinksNext => event is Sent,
            Stage::MessageArm(_) | Stage::MessageUnsubscribe(_) | Stage::MessageDisarm(_)
            | Stage::LinkUnsubscribe => event is Done,
        }
    }

    /// The operation ends.
    pub open spec fn complete(self, outcome: Outcome) -> (Core, ModemAction) {
        (Core { stage: Stage::Idle, backoff: false, ..self }, ModemAction::Complete(outcome))
    }

    /// A frame is sent for the first time, with all its retries ahead.
    pub open spec fn first_attempt(self, stage: Stage) -> (Core, ModemAction) {
        let next = Core { stage, retries: (NUM_RETRIES - 1) as u8, backoff: false, ..self };
        (next, ModemAction::Send { frame: next.frame_in_flight() })
    }

    /// A message begins: the timer first.
    pub open spec fn begin_message(self, within: Within, message: Message, timeout: u64) -> (
        Core,
        ModemAction,
    ) {
        (
            Core { stage: Stage::MessageArm(within), message, timeout, backoff: false, ..self },
            ModemAction::Arm { millis: timeout },
        )
    }

    /// A message has come to `result`: its subscription ends first.
    pub open spec fn end_message(self, within: Within, result: Result<Message, Error>) -> (
        Core,
        ModemAction,
    ) {
        (
            Core { stage: Stage::MessageUnsubscribe(within), pending: result, backoff: false, ..self },
            ModemAction::Unsubscribe { listener: Listener::Messages },
        )
    }

    /// A message is over. Alone, it ends the operation. At the start of a
    /// link cycle its failure ends the cycle, and its success lets the modem
    /// enter linking mode. At the end of a link cycle it never matters.
    pub open spec fn after_message(self, within: Within) -> (Core, ModemAction) {
        match within {
            Within::Alone => match self.pending {
                Ok(message) => self.complete(Outcome::Message(message)),
                Err(e) => self.complete(Outcome::Failed(e)),
            },
            Within::LinkAsk => match self.pending {
                Ok(_) => self.first_attempt(Stage::LinkStart),
                Err(e) => self.complete(Outcome::Failed(e)),
            },
            Within::LinkRelease => self.first_attempt(Stage::LinkClose),
        }
    }

    /// A link cycle turns to its device, if it has one, with `cmd1`; without
    /// a device it goes on with `stage`.
    pub open spec fn turn_to_device(self, within: Within, cmd1: Command, stage: Stage) -> (
        Core,
        ModemAction,
    ) {
        match self.address {
            Some(to) => self.begin_message(
                within,
                self.link_message(to, cmd1),
                DEFAULT_TIMEOUT_MILLIS,
            ),
            None => self.first_attempt(stage),
        }
    }

    /// The frame in flight has come to `result`, with no retry left to try
    /// or none called for.
    pub open spec fn settled(self, result: Result<Frame, Error>) -> (Core, ModemAction) {
        match self.stage {
            Stage::Info => match result {
                Ok(Frame::ModemInfo(info)) => self.complete(Outcome::Info(info)),
                Ok(_) => self.complete(Outcome::Failed(Error::UnexpectedResponse)),
                Err(e) => self.complete(Outcome::Failed(e)),
            },
            Stage::LinksFirst => match result {
                Ok(_) => (
                    Core { stage: Stage::LinksListen, ..self },
                    ModemAction::Listen { listener: Listener::Frames },
                ),
                Err(e) => self.complete(Outcome::Failed(e)),
            },
            Stage::MessageSend(within) => match result {
                Ok(_) => (
                    Core { stage: Stage::MessageAwait(within), ..self },
                    ModemAction::Listen { listener: Listener::Messages },
                ),
                Err(e) => self.end_message(within, Err(e)),
            },
            Stage::LinkCancel => match result {
                Ok(_) => (
                    Core { stage: Stage::LinkSubscribe, ..self },
                    ModemAction::Subscribe { listener: Listener::Frames },
                ),
                Err(e) => self.complete(Outcome::Failed(e)),
            },
            Stage::LinkStart => match result {
                Ok(_) => (
                    Core { stage: Stage::LinkWait, ..self },
                    ModemAction::Listen { listener: Listener::Frames },
                ),
                Err(e) => self.complete(Outcome::Failed(e)),
            },
            _ => self.complete(self.link_outcome()),
        }
    }

    /// One step of sending a frame with retries. A refusal is answered by a
    /// sleep and another attempt while retries are left; anything else
    /// settles the matter.
    pub open spec fn sending_frame(self, event: ModemEvent) -> (Core, ModemAction) {
        match event {
            ModemEvent::Sent(Err(Error::NotAcknowledged)) if self.retries > 0 => (
                Core { backoff: true, ..self },
                ModemAction::Sleep { millis: RETRY_DELAY_MILLIS },
            ),
            ModemEvent::Sent(result) => self.settled(result),
            _ => (
                Core {
                    backoff: false,
                    retries: if self.retries > 0 {
                        (self.retries - 1) as u8
                    } else {
                        0
                    },
                    ..self
                },
                ModemAction::Send { frame: self.frame_in_flight() },
            ),
        }
    }

    /// One step of sending a message and awaiting its acknowledgement.
    pub open spec fn sending_message(self, within: Within, event: ModemEvent) -> (
        Core,
        ModemAction,
    ) {
        match (self.stage, event) {
            (Stage::MessageArm(_), _) => (
                Core { stage: Stage::MessageSubscribe(within), ..self },
                ModemAction::Subscribe { listener: Listener::Messages },
            ),
            (Stage::MessageUnsubscribe(_), _) => (
                Core { stage: Stage::MessageDisarm(within), ..self },
                ModemAction::Disarm,
            ),
            (Stage::MessageDisarm(_), _) => self.after_message(within),
            (_, ModemEvent::TimedOut) => self.end_message(within, Err(Error::Timeout)),
            (Stage::MessageSubscribe(_), ModemEvent::Subscribed(Err(e))) => self.end_message(
                within,
                Err(e),
            ),
            (Stage::MessageSubscribe(_), _) => self.first_attempt(Stage::MessageSend(within)),
            (Stage::MessageSend(_), _) => self.sending_frame(event),
            (_, ModemEvent::Heard(Some(frame))) => match Message::of_frame(frame) {
                Ok(response) if self.message.acked_by(response) => self.end_message(
                    within,
                    Ok(response),
                ),
                _ => (self, ModemAction::Listen { listener: Listener::Messages }),
            },
            _ => self.end_message(within, Ok(self.message)),
        }
    }

    /// The state after `event`, and what the caller has to do next.
    pub open spec fn advance(self, event: ModemEvent) -> (Core, ModemAction) {
        match self.stage {
            Stage::Idle => (self, ModemAction::Complete(Outcome::Failed(Error::Disconnected))),
            Stage::Info | Stage::LinksFirst | Stage::LinkCancel | Stage::LinkStart
            | Stage::LinkClose => self.sending_frame(event),
            Stage::MessageArm(within) | Stage::MessageSubscribe(within) | Stage::MessageSend(
                within,
            ) | Stage::MessageAwait(within) | Stage::MessageUnsubscribe(within)
            | Stage::MessageDisarm(within) => self.sending_message(within, event),
            Stage::LinksSubscribe => match event {
                ModemEvent::Subscribed(Err(e)) => self.complete(Outcome::Failed(e)),
                _ => self.first_attempt(Stage::LinksFirst),
            },
            Stage::LinksListen => match event {
                ModemEvent::Heard(Some(Frame::AllLinkRecord(_))) => {
                    let next = Core { stage: Stage::LinksNext, ..self };
                    (next, ModemAction::Send { frame: next.frame_in_flight() })
                },
                ModemEvent::Heard(Some(_)) => self.complete(
                    Outcome::Failed(Error::UnexpectedResponse),
                ),
                _ => self.complete(Outcome::Links),
            },
            Stage::LinksNext => match event {
                ModemEvent::Sent(Err(Error::NotAcknowledged)) => self.complete(Outcome::Links),
                _ => (
                    Core { stage: Stage::LinksListen, ..self },
                    ModemAction::Listen { listener: Listener::Frames },
                ),
            },
            Stage::LinkSubscribe => match event {
                ModemEvent::Subscribed(Err(e)) => self.complete(Outcome::Failed(e)),
                _ => self.turn_to_device(Within::LinkAsk, Command::StartLinking, Stage::LinkStart),
            },
            Stage::LinkWait => match event {
                ModemEvent::Heard(Some(Frame::AllLinkComplete(complete))) => (
                    Core { stage: Stage::LinkUnsubscribe, linked: Some(complete), ..self },
                    ModemAction::Unsubscribe { listener: Listener::Frames },
                ),
                ModemEvent::Heard(Some(_)) => (
                    self,
                    ModemAction::Listen { listener: Listener::Frames },
                ),
                _ => (
                    Core { stage: Stage::LinkUnsubscribe, linked: None, ..self },
                    ModemAction::Unsubscribe { listener: Listener::Frames },
                ),
            },
            Stage::LinkUnsubscribe => self.turn_to_device(
                Within::LinkRelease,
                Command::CancelLinking,
                Stage::LinkClose,
            ),
        }
    }

    /// The start of a request for the info of the modem.
    pub open spec fn start_info() -> (Core, ModemAction) {
        Core::fresh().first_attempt(Stage::Info)
    }

    /// The start of a reading of the link database.
    pub open spec fn start_links() -> (Core, ModemAction) {
        (
            Core { stage: Stage::LinksSubscribe, ..Core::fresh() },
            ModemAction::Subscribe { listener: Listener::Frames },
        )
    }

    /// The start of a message.
    pub open spec fn start_message(message: Message, timeout: u64) -> (Core, ModemAction) {
        Core::fresh().begin_message(Within::Alone, message, timeout)
    }

    /// The start of a link cycle.
    pub open spec fn start_link(address: Option<Address>, mode: AllLinkMode, group: u8) -> (
        Core,
        ModemAction,
    ) {
        (Core { address, mode, group, ..Core::fresh() }).first_attempt(Stage::LinkCancel)
    }
}

/// The state of the modem, as contracts see it.
pub struct ModemState {
    pub core: Core,
    /// The records of the link database that were read so far.
    pub records: Seq<AllLinkRecord>,
}

impl ModemState {
    /// The records after `event`: a record that arrives while the link
    /// database is read is put at their end.
    pub open spec fn gathered(self, event: ModemEvent) -> Seq<AllLinkRecord> {
        match (self.core.stage, event) {
            (Stage::LinksListen, ModemEvent::Heard(Some(Frame::AllLinkRecord(record)))) => {
                self.records.push(record)
            },
            _ => self.records,
        }
    }

    /// The state after `event`.
    pub open spec fn next(self, event: ModemEvent) -> ModemState {
        ModemState { core: self.core.advance(event).0, records: self.gathered(event) }
    }

    /// What the caller has to do after `event`.
    pub open spec fn action(self, event: ModemEvent) -> ModemAction {
        self.core.advance(event).1
    }
}

/// A connection to an INSTEON modem, seen from the side that decides. It
/// sends messages and manages device links through the actions it hands out.
pub struct Modem {
    core: Core,
    records: Vec<AllLinkRecord>,
}

impl View for Modem {
    type V = ModemState;

    closed spec fn view(&self) -> ModemState {
        ModemState { core: self.core, records: self.records@ }
    }
}

fn fresh_core() -> (r: Core)
    ensures
        r == Core::fresh(),
{
    Core {
        stage: Stage::Idle,
        retries: 0,
        backoff: false,
        message: Message::default(),
        timeout: 0,
        pending: Ok(Message::default()),
        address: None,
        mode: AllLinkMode::Auto,
        group: 0,
        linked: None,
    }
}

impl Modem {
    /// A modem on which no operation runs.
    pub fn new() -> (r: Modem)
        ensures
            r@.core == Core::fresh(),
            r@.records == Seq::<AllLinkRecord>::empty(),
    {
        Modem { core: fresh_core(), records: Vec::new() }
    }

    /// Where the operation stands.
    pub fn stage(&self) -> (r: Stage)
        ensures
            r == self@.core.stage,
    {
        self.core.stage
    }

    /// Whether no operation runs.
    pub fn is_idle(&self) -> (r: bool)
        ensures
            r == (self@.core.stage == Stage::Idle),
    {
        match self.core.stage {
            Stage::Idle => true,
            _ => false,
        }
    }

    /// The records of the link database that the last reading of it gave.
    pub fn links(&self) -> (r: &Vec<AllLinkRecord>)
        ensures
            r@ == self@.records,
    {
        &self.records
    }

    /// Whether `event` can come now.
    pub fn accepts(&self, event: &ModemEvent) -> (r: bool)
        ensures
            r == self@.core.accepts(*event),
    {
        let sent = match event {
            ModemEvent::Sent(_) => true,
            _ => false,
        };
        let done = match event {
            ModemEvent::Done => true,
            _ => false,
        };
        let timed_out = match event {
            ModemEvent::TimedOut => true,
            _ => false,
        };
        let subscribed = match event {
            ModemEvent::Subscribed(_) => true,
            _ => false,
        };
        let heard = match event {
            ModemEvent::Heard(_) => true,
            _ => false,
        };
        let turn = if self.core.backoff {
            done
        } else {
            sent
        };
        match self.core.stage {
            Stage::Idle => false,
            Stage::Info | Stage::LinksFirst | Stage::LinkCancel | Stage::LinkStart
            | Stage::LinkClose => turn,
            Stage::MessageSend(_) => timed_out || turn,
            Stage::LinksSubscribe | Stage::LinkSubscribe => subscribed,
            Stage::MessageSubscribe(_) => subscribed || timed_out,
            Stage::LinksListen | Stage::LinkWait => heard,
            Stage::MessageAwait(_) => heard || timed_out,
            Stage::LinksNext => sent,
            Stage::MessageArm(_) | Stage::MessageUnsubscribe(_) | Stage::MessageDisarm(_)
            | Stage::LinkUnsubscribe => done,
        }
    }

    /// What a subscription to messages makes of a frame: the message that it
    /// reports, if it reports one.
    pub fn listen(frame: Frame) -> (r: Option<Message>)
        ensures
            r == match Message::of_frame(frame) {
                Ok(message) => Some(message),
                Err(_) => None::<Message>,
            },
    {
        match Message::try_from(frame) {
            Ok(message) => Some(message),
            Err(_) => None,
        }
    }

    fn frame_in_flight(&self) -> (r: Frame)
        ensures
            r == self.core.frame_in_flight(),
    {
        match self.core.stage {
            Stage::Info => Frame::GetModemInfo,
            Stage::LinksFirst => Frame::GetFirstAllLinkRecord,
            Stage::LinksNext => Frame::GetNextAllLinkRecord,
            Stage::MessageSend(_) => self.core.message.to_frame(),
            Stage::LinkStart => Frame::StartAllLink { mode: self.core.mode, group: self.core.group },
            _ => Frame::CancelAllLink,
        }
    }

    fn complete(&mut self, outcome: Outcome) -> (action: ModemAction)
        ensures
            (final(self).core, action) == old(self).core.complete(outcome),
            final(self).records == old(self).records,
    {
        self.core.stage = Stage::Idle;
        self.core.backoff = false;
        ModemAction::Complete(outcome)
    }

    /// Sends the frame of `stage` for the first time.
    fn send_frame(&mut self, stage: Stage) -> (action: ModemAction)
        ensures
            (final(self).core, action) == old(self).core.first_attempt(stage),
            final(self).records == old(self).records,
    {
        self.core.stage = stage;
        self.core.retries = NUM_RETRIES - 1;
        self.core.backoff = false;
        ModemAction::Send { frame: self.frame_in_flight() }
    }

    fn begin_message(&mut self, within: Within, message: Message, timeout: u64) -> (action:
        ModemAction)
        ensures
            (final(self).core, action) == old(self).core.begin_message(within, message, timeout),
            final(self).records == old(self).records,
    {
        self.core.stage = Stage::MessageArm(within);
        self.core.message = message;
        self.core.timeout = timeout;
        self.core.backoff = false;
        ModemAction::Arm { millis: timeout }
    }

    fn end_message(&mut self, within: Within, result: Result<Message, Error>) -> (action:
        ModemAction)
        ensures
            (final(self).core, action) == old(self).core.end_message(within, result),
            final(self).records == old(self).records,
    {
        self.core.stage = Stage::MessageUnsubscribe(within);
        self.core.pending = result;
        self.core.backoff = false;
        ModemAction::Unsubscribe { listener: Listener::Messages }
    }

    fn after_message(&mut self, within: Within) -> (action: ModemAction)
        ensures
            (final(self).core, action) == old(self).core.after_message(within),
            final(self).records == old(self).records,
    {
        let pending = self.core.pending;
        match within {
            Within::Alone => match pending {
                Ok(message) => self.complete(Outcome::Message(message)),
                Err(e) => self.complete(Outcome::Failed(e)),
            },
            Within::LinkAsk => match pending {
                Ok(_) => self.send_frame(Stage::LinkStart),
                Err(e) => self.complete(Outcome::Failed(e)),
            },
            Within::LinkRelease => self.send_frame(Stage::LinkClose),
        }
    }

    fn turn_to_device(&mut self, within: Within, cmd1: Command, stage: Stage) -> (action:
        ModemAction)
        ensures
            (final(self).core, action) == old(self).core.turn_to_device(within, cmd1, stage),
            final(self).records == old(self).records,
    {
        match self.core.address {
            Some(to) => {
                let message = Message::from(
                    (
                        to,
                        cmd1,
                        Command::from(self.core.group),
                        MessageFlags { bits: MessageFlags::EXTENDED },
                    ),
                );
                self.begin_message(within, message, DEFAULT_TIMEOUT_MILLIS)
            },
            None => self.send_frame(stage),
        }
    }

    fn link_outcome(&self) -> (r: Outcome)
        ensures
            r == self.core.link_outcome(),
    {
        match self.core.linked {
            Some(complete) => Outcome::Linked(complete),
            None => Outcome::Failed(Error::UnexpectedResponse),
        }
    }

    fn settled(&mut self, result: Result<Frame, Error>) -> (action: ModemAction)
        ensures
            (final(self).core, action) == old(self).core.settled(result),
            final(self).records == old(self).records,
    {
        match self.core.stage {
            Stage::Info => match result {
                Ok(Frame::ModemInfo(info)) => self.complete(Outcome::Info(info)),
                Ok(_) => self.complete(Outcome::Failed(Error::UnexpectedResponse)),
                Err(e) => self.complete(Outcome::Failed(e)),
            },
            Stage::LinksFirst => match result {
                Ok(_) => {
                    self.core.stage = Stage::LinksListen;
                    ModemAction::Listen { listener: Listener::Frames }
                },
                Err(e) => self.complete(Outcome::Failed(e)),
            },
            Stage::MessageSend(within) => match result {
                Ok(_) => {
                    self.core.stage = Stage::MessageAwait(within);
                    ModemAction::Listen { listener: Listener::Messages }
                },
                Err(e) => self.end_message(within, Err(e)),
            },
            Stage::LinkCancel => match result {
                Ok(_) => {
                    self.core.stage = Stage::LinkSubscribe;
                    ModemAction::Subscribe { listener: Listener::Frames }
                },
                Err(e) => self.complete(Outcome::Failed(e)),
            },
            Stage::LinkStart => match result {
                Ok(_) => {
                    self.core.stage = Stage::LinkWait;
                    ModemAction::Listen { listener: Listener::Frames }
                },
                Err(e) => self.complete(Outcome::Failed(e)),
            },
            _ => {
                let outcome = self.link_outcome();
                self.complete(outcome)
            },
        }
    }

    /// Decides what follows an attempt to send the frame in flight.
    fn retry(&mut self, event: ModemEvent) -> (action: ModemAction)
        requires
            old(self).core.accepts(event),
            old(self).core.sending(),
            !(event is TimedOut),
        ensures
            (final(self).core, action) == old(self).core.sending_frame(event),
            final(self).records == old(self).records,
    {
        match event {
            ModemEvent::Sent(result) => {
                let refused = match &result {
                    Err(Error::NotAcknowledged) => true,
                    _ => false,
                };
                if refused && self.core.retries > 0 {
                    self.core.backoff = true;
                    ModemAction::Sleep { millis: RETRY_DELAY_MILLIS }
                } else {
                    self.settled(result)
                }
            },
            _ => {
                let frame = self.frame_in_flight();
                self.core.backoff = false;
                self.core.retries = if self.core.retries > 0 {
                    self.core.retries - 1
                } else {
                    0
                };
                ModemAction::Send { frame }
            },
        }
    }

    /// Decides the next step of sending a message and awaiting its
    /// acknowledgement.
    fn send_message_direct(&mut self, within: Within, event: ModemEvent) -> (action: ModemAction)
        requires
            old(self).core.accepts(event),
            old(self).core.stage == Stage::MessageArm(within) || old(self).core.stage
                == Stage::MessageSubscribe(within) || old(self).core.stage == Stage::MessageSend(
                within,
            ) || old(self).core.stage == Stage::MessageAwait(within) || old(self).core.stage
                == Stage::MessageUnsubscribe(within) || old(self).core.stage
                == Stage::MessageDisarm(within),
        ensures
            (final(self).core, action) == old(self).core.sending_message(within, event),
            final(self).records == old(self).records,
    {
        match self.core.stage {
            Stage::MessageArm(_) => {
                self.core.stage = Stage::MessageSubscribe(within);
                ModemAction::Subscribe { listener: Listener::Messages }
            },
            Stage::MessageUnsubscribe(_) => {
                self.core.stage = Stage::MessageDisarm(within);
                ModemAction::Disarm
            },
            Stage::MessageDisarm(_) => self.after_message(within),
            Stage::MessageSubscribe(_) => match event {
                ModemEvent::TimedOut => self.end_message(within, Err(Error::Timeout)),
                ModemEvent::Subscribed(Err(e)) => self.end_message(within, Err(e)),
                _ => self.send_frame(Stage::MessageSend(within)),
            },
            Stage::MessageSend(_) => match event {
                ModemEvent::TimedOut => self.end_message(within, Err(Error::Timeout)),
                _ => self.retry(event),
            },
            _ => match event {
                ModemEvent::TimedOut => self.end_message(within, Err(Error::Timeout)),
                ModemEvent::Heard(Some(frame)) => match Message::try_from(frame) {
                    Ok(response) => {
                        if self.core.message.is_ack(&response) {
                            self.end_message(within, Ok(response))
                        } else {
                            ModemAction::Listen { listener: Listener::Messages }
                        }
                    },
                    Err(_) => ModemAction::Listen { listener: Listener::Messages },
                },
                _ => {
                    let message = self.core.message;
                    self.end_message(within, Ok(message))
                },
            },
        }
    }

    /// Asks for the info of the modem. The operation ends with the info, or
    /// fails: with an unexpected response where the modem answers with
    /// another frame, and with the error of the send otherwise.
    pub fn get_info(&mut self) -> (action: ModemAction)
        ensures
            final(self)@.core == Core::start_info().0,
            action == Core::start_info().1,
            final(self)@.records == old(self)@.records,
    {
        self.core = fresh_core();
        self.send_frame(Stage::Info)
    }

    /// Reads the link database of the modem. The operation ends when the
    /// modem refuses the request for a next record, which is how it says
    /// that there is none. The records are then in `links`.
    pub fn get_links(&mut self) -> (action: ModemAction)
        ensures
            final(self)@.core == Core::start_links().0,
            action == Core::start_links().1,
            final(self)@.records == Seq::<AllLinkRecord>::empty(),
    {
        self.core = fresh_core();
        self.core.stage = Stage::LinksSubscribe;
        self.records = Vec::new();
        ModemAction::Subscribe { listener: Listener::Frames }
    }

    /// Sends a message and awaits its acknowledgement for the default time,
    /// `DEFAULT_TIMEOUT_MILLIS`.
    pub fn send_message(&mut self, message: Message) -> (action: ModemAction)
        ensures
            final(self)@.core == Core::start_message(message, DEFAULT_TIMEOUT_MILLIS).0,
            action == Core::start_message(message, DEFAULT_TIMEOUT_MILLIS).1,
            final(self)@.records == old(self)@.records,
    {
        self.send_message_with_timeout(message, DEFAULT_TIMEOUT_MILLIS)
    }

    /// Sends a message and awaits its acknowledgement for the given time, in
    /// milliseconds. The operation ends with the acknowledgement, with the
    /// message itself where the subscription ends first, or with a timeout
    /// where the timer goes off first. After a timeout the frame may have
    /// been written all the same: the write is not taken back.
    pub fn send_message_with_timeout(&mut self, message: Message, millis: u64) -> (action:
        ModemAction)
        ensures
            final(self)@.core == Core::start_message(message, millis).0,
            action == Core::start_message(message, millis).1,
            final(self)@.records == old(self)@.records,
    {
        self.core = fresh_core();
        self.begin_message(Within::Alone, message, millis)
    }

    /// Links a device to the modem, or takes part in a link cycle that
    /// somebody starts at a device by hand. The mode has to be one that can
    /// be sent.
    pub fn link_device(&mut self, address: Option<Address>, mode: AllLinkMode, group: u8) -> (action:
        ModemAction)
        requires
            mode != AllLinkMode::NoLink,
        ensures
            final(self)@.core == Core::start_link(address, mode, group).0,
            action == Core::start_link(address, mode, group).1,
            final(self)@.core.wf(),
            final(self)@.records == old(self)@.records,
    {
        self.core = fresh_core();
        self.core.address = address;
        self.core.mode = mode;
        self.core.group = group;
        self.send_frame(Stage::LinkCancel)
    }

    /// Takes the outcome of the last action, if it is one, and says what the
    /// caller has to do next. An event that is no answer to the last action
    /// changes nothing.
    pub fn try_step(&mut self, event: ModemEvent) -> (action: Option<ModemAction>)
        ensures
            old(self)@.core.accepts(event) ==> final(self)@ == old(self)@.next(event) && action
                == Some(old(self)@.action(event)),
            !old(self)@.core.accepts(event) ==> final(self)@ == old(self)@ && action.is_none(),
    {
        if self.accepts(&event) {
            Some(self.step(event))
        } else {
            None
        }
    }

    /// Takes the outcome of the last action and says what the caller has to
    /// do next.
    pub fn step(&mut self, event: ModemEvent) -> (action: ModemAction)
        requires
            old(self)@.core.accepts(event),
        ensures
            final(self)@ == old(self)@.next(event),
            action == old(self)@.action(event),
    {
        match self.core.stage {
            Stage::Idle => ModemAction::Complete(Outcome::Failed(Error::Disconnected)),
            Stage::Info | Stage::LinksFirst | Stage::LinkCancel | Stage::LinkStart
            | Stage::LinkClose => self.retry(event),
            Stage::MessageArm(within) | Stage::MessageSubscribe(within) | Stage::MessageSend(
                within,
            ) | Stage::MessageAwait(within) | Stage::MessageUnsubscribe(within)
            | Stage::MessageDisarm(within) => self.send_message_direct(within, event),
            Stage::LinksSubscribe => match event {
                ModemEvent::Subscribed(Err(e)) => self.complete(Outcome::Failed(e)),
                _ => self.send_frame(Stage::LinksFirst),
            },
            Stage::LinksListen => match event {
                ModemEvent::Heard(Some(Frame::AllLinkRecord(record))) => {
                    self.records.push(record);
                    self.core.stage = Stage::LinksNext;
                    ModemAction::Send { frame: self.frame_in_flight() }
                },
                ModemEvent::Heard(Some(_)) => self.complete(
                    Outcome::Failed(Error::UnexpectedResponse),
                ),
                _ => self.complete(Outcome::Links),
            },
            Stage::LinksNext => match event {
                ModemEvent::Sent(Err(Error::NotAcknowledged)) => self.complete(Outcome::Links),
                _ => {
                    self.core.stage = Stage::LinksListen;
                    ModemAction::Listen { listener: Listener::Frames }
                },
            },
            Stage::LinkSubscribe => match event {
                ModemEvent::Subscribed(Err(e)) => self.complete(Outcome::Failed(e)),
                _ => self.turn_to_device(Within::LinkAsk, Command::StartLinking, Stage::LinkStart),
            },
            Stage::LinkWait => match event {
                ModemEvent::Heard(Some(Frame::AllLinkComplete(complete))) => {
                    self.core.stage = Stage::LinkUnsubscribe;
                    self.core.linked = Some(complete);
                    ModemAction::Unsubscribe { listener: Listener::Frames }
                },
                ModemEvent::Heard(Some(_)) => ModemAction::Listen { listener: Listener::Frames },
                _ => {
                    self.core.stage = Stage::LinkUnsubscribe;
                    self.core.linked = None;
                    ModemAction::Unsubscribe { listener: Listener::Frames }
                },
            },
            Stage::LinkUnsubscribe => self.turn_to_device(
                Within::LinkRelease,
                Command::CancelLinking,
                Stage::LinkClose,
            ),
        }
    }
}

impl Core {
    /// Whether `stage` is one in which a frame is sent with retries.
    pub open spec fn retried(stage: Stage) -> bool {
        (Core { stage, ..Core::fresh() }).sending()
    }

    /// The state after `n` refusals of the frame in flight, each followed by
    /// the sleep that comes before the next attempt.
    pub open spec fn after_refusals(self, n: nat) -> Core
        decreases n,
    {
        if n == 0 {
            self
        } else {
            self.after_refusals((n - 1) as nat).advance(
                ModemEvent::Sent(Err(Error::NotAcknowledged)),
            ).0.advance(ModemEvent::Done).0
        }
    }
}

/// A frame that is always refused is sent `NUM_RETRIES` times and no more.
/// After the first attempt and `n` refusals, the frame is sent again, after a
/// sleep of `RETRY_DELAY_MILLIS`, as long as `n` is below `NUM_RETRIES - 1`.
/// The refusal of the last attempt settles the matter as a refusal: the
/// request for the info of the modem, for one, then fails with it.
pub proof fn lemma_refusals_exhaust_retries(start: Core, stage: Stage, n: nat)
    requires
        Core::retried(stage),
        n < NUM_RETRIES,
    ensures
        ({
            let first = start.first_attempt(stage).0;
            let refused = ModemEvent::Sent(Err(Error::NotAcknowledged));
            let now = first.after_refusals(n);
            &&& start.first_attempt(stage).1 == (ModemAction::Send {
                frame: first.frame_in_flight(),
            })
            &&& now == (Core { retries: (NUM_RETRIES - 1 - n) as u8, ..first })
            &&& now.accepts(refused)
            &&& n < NUM_RETRIES - 1 ==> {
                &&& now.advance(refused).1 == (ModemAction::Sleep { millis: RETRY_DELAY_MILLIS })
                &&& now.advance(refused).0.accepts(ModemEvent::Done)
                &&& now.advance(refused).0.advance(ModemEvent::Done).1 == (ModemAction::Send {
                    frame: first.frame_in_flight(),
                })
            }
            &&& n == NUM_RETRIES - 1 ==> now.advance(refused) == now.settled(
                Err(Error::NotAcknowledged),
            )
            &&& n == NUM_RETRIES - 1 && stage == Stage::Info ==> now.advance(refused).1 == (
            ModemAction::Complete(Outcome::Failed(Error::NotAcknowledged)))
        }),
    decreases n,
{
    if n > 0 {
        lemma_refusals_exhaust_retries(start, stage, (n - 1) as nat);
    }
}

/// Whatever happens, the modem only asks for frames to be sent that can be
/// written, as long as the mode of its link cycle is one that can be.
pub proof fn lemma_sends_can_be_written(core: Core, event: ModemEvent)
    requires
        core.wf(),
    ensures
        core.advance(event).0.wf(),
        core.advance(event).1 matches ModemAction::Send { frame } ==> frame.sendable(),
{
}

/// A link cycle without a device, where everything goes well. The modem is
/// told to leave linking mode, then to enter it; the frame that ends the
/// cycle is the result; and the modem is told to leave linking mode again.
pub proof fn lemma_link_cycle(
    mode: AllLinkMode,
    group: u8,
    complete: AllLinkComplete,
    reply: Frame,
)
    requires
        mode != AllLinkMode::NoLink,
    ensures
        ({
            let (s0, a0) = Core::start_link(None, mode, group);
            let (s1, a1) = s0.advance(ModemEvent::Sent(Ok(reply)));
            let (s2, a2) = s1.advance(ModemEvent::Subscribed(Ok(())));
            let (s3, a3) = s2.advance(ModemEvent::Sent(Ok(reply)));
            let (s4, a4) = s3.advance(ModemEvent::Heard(Some(Frame::AllLinkComplete(complete))));
            let (s5, a5) = s4.advance(ModemEvent::Done);
            let (s6, a6) = s5.advance(ModemEvent::Sent(Ok(reply)));
            &&& a0 == ModemAction::Send { frame: Frame::CancelAllLink }
            &&& s0.accepts(ModemEvent::Sent(Ok(reply)))
            &&& a1 == ModemAction::Subscribe { listener: Listener::Frames }
            &&& s1.accepts(ModemEvent::Subscribed(Ok(())))
            &&& a2 == ModemAction::Send { frame: Frame::StartAllLink { mode, group } }
            &&& s2.accepts(ModemEvent::Sent(Ok(reply)))
            &&& a3 == ModemAction::Listen { listener: Listener::Frames }
            &&& s3.accepts(ModemEvent::Heard(Some(Frame::AllLinkComplete(complete))))
            &&& a4 == ModemAction::Unsubscribe { listener: Listener::Frames }
            &&& s4.accepts(ModemEvent::Done)
            &&& a5 == ModemAction::Send { frame: Frame::CancelAllLink }
            &&& s5.accepts(ModemEvent::Sent(Ok(reply)))
            &&& a6 == ModemAction::Complete(Outcome::Linked(complete))
            &&& s6.stage == Stage::Idle
        }),
{
}

/// The same with a device, for the part from the subscription to the frames
/// of the cycle up to the order to enter linking mode: the device is asked
/// first, in an extended message, and the modem goes on when the device has
/// acknowledged.
pub proof fn lemma_link_cycle_asks_device(
    start: Core,
    to: Address,
    acknowledgement: Message,
    reply: Frame,
    heard: Frame,
)
    requires
        start.stage == Stage::LinkSubscribe,
        start.address == Some(to),
        start.wf(),
        Message::of_frame(heard) == Ok::<Message, Error>(acknowledgement),
        start.link_message(to, Command::StartLinking).acked_by(acknowledgement),
    ensures
        ({
            let message = start.link_message(to, Command::StartLinking);
            let (s1, a1) = start.advance(ModemEvent::Subscribed(Ok(())));
            let (s2, a2) = s1.advance(ModemEvent::Done);
            let (s3, a3) = s2.advance(ModemEvent::Subscribed(Ok(())));
            let (s4, a4) = s3.advance(ModemEvent::Sent(Ok(reply)));
            let (s5, a5) = s4.advance(ModemEvent::Heard(Some(heard)));
            let (s6, a6) = s5.advance(ModemEvent::Done);
            let (s7, a7) = s6.advance(ModemEvent::Done);
            &&& a1 == ModemAction::Arm { millis: DEFAULT_TIMEOUT_MILLIS }
            &&& a2 == ModemAction::Subscribe { listener: Listener::Messages }
            &&& a3 == ModemAction::Send { frame: message.send_frame() }
            &&& message.send_frame() is ExtendedInsteonSend
            &&& a4 == ModemAction::Listen { listener: Listener::Messages }
            &&& a5 == ModemAction::Unsubscribe { listener: Listener::Messages }
            &&& a6 == ModemAction::Disarm
            &&& a7 == ModemAction::Send {
                frame: Frame::StartAllLink { mode: start.mode, group: start.group },
            }
        }),
{
    let message = start.link_message(to, Command::StartLinking);
    assert(message.flags.has(MessageFlags::EXTENDED)) by {
        assert(0x10u8 & 0x10u8 == 0x10u8) by (bit_vector);
    }
}

/// The end of a link cycle with a device, from the end of the subscription
/// to the frames of the cycle: the device is asked to leave linking mode, and
/// whatever comes of that, here a timeout, the modem is told to leave linking
/// mode and the cycle ends with what it came to before.
pub proof fn lemma_link_cycle_releases_device(start: Core, to: Address, reply: Frame)
    requires
        start.stage == Stage::LinkUnsubscribe,
        start.address == Some(to),
        start.wf(),
    ensures
        ({
            let message = start.link_message(to, Command::CancelLinking);
            let (s1, a1) = start.advance(ModemEvent::Done);
            let (s2, a2) = s1.advance(ModemEvent::Done);
            let (s3, a3) = s2.advance(ModemEvent::Subscribed(Ok(())));
            let (s4, a4) = s3.advance(ModemEvent::TimedOut);
            let (s5, a5) = s4.advance(ModemEvent::Done);
            let (s6, a6) = s5.advance(ModemEvent::Done);
            let (s7, a7) = s6.advance(ModemEvent::Sent(Ok(reply)));
            &&& a1 == ModemAction::Arm { millis: DEFAULT_TIMEOUT_MILLIS }
            &&& a2 == ModemAction::Subscribe { listener: Listener::Messages }
            &&& a3 == ModemAction::Send { frame: message.send_frame() }
            &&& message.send_frame() is ExtendedInsteonSend
            &&& s3.accepts(ModemEvent::TimedOut)
            &&& a4 == ModemAction::Unsubscribe { listener: Listener::Messages }
            &&& a5 == ModemAction::Disarm
            &&& a6 == ModemAction::Send { frame: Frame::CancelAllLink }
            &&& a7 == ModemAction::Complete(start.link_outcome())
        }),
{
    let message = start.link_message(to, Command::CancelLinking);
    assert(message.flags.has(MessageFlags::EXTENDED)) by {
        assert(0x10u8 & 0x10u8 == 0x10u8) by (bit_vector);
    }
}

impl ModemAction {
    /// Whether `event` is an answer to this action. The timer can cut short
    /// whatever takes time.
    pub open spec fn answered_by(self, event: ModemEvent) -> bool {
        match self {
            ModemAction::Subscribe { .. } => event is Subscribed || event is TimedOut,
            ModemAction::Send { .. } => event is Sent || event is TimedOut,
            ModemAction::Listen { .. } => event is Heard || event is TimedOut,
            ModemAction::Sleep { .. } => event is Done || event is TimedOut,
            ModemAction::Unsubscribe { .. } | ModemAction::Arm { .. } | ModemAction::Disarm => {
                event is Done
            },
            ModemAction::Complete(_) => false,
        }
    }
}

impl Core {
    /// Whether the timer of a message runs.
    pub open spec fn armed(self) -> bool {
        match self.stage {
            Stage::MessageSubscribe(_) | Stage::MessageSend(_) | Stage::MessageAwait(_) => true,
            _ => false,
        }
    }
}

/// The conversation never gets stuck. The modem takes every answer to the
/// action that it has handed out: the outcome of the action always, and the
/// timeout exactly while the timer of a message runs. An operation is over
/// exactly when the modem says so.
pub proof fn lemma_action_is_answerable(core: Core, event: ModemEvent, answer: ModemEvent)
    requires
        core.accepts(event),
    ensures
        ({
            let (next, action) = core.advance(event);
            &&& action is Complete <==> next.stage == Stage::Idle
            &&& action.answered_by(answer) && !(answer is TimedOut) ==> next.accepts(answer)
            &&& action.answered_by(answer) && answer is TimedOut ==> (next.accepts(answer)
                <==> next.armed())
            &&& next.accepts(answer) ==> action.answered_by(answer)
        }),
{
}

/// The same holds of the first action of every operation.
pub proof fn lemma_first_action_is_answerable(
    message: Message,
    timeout: u64,
    address: Option<Address>,
    mode: AllLinkMode,
    group: u8,
    answer: ModemEvent,
)
    ensures
        Core::start_info().0.accepts(answer) <==> Core::start_info().1.answered_by(answer)
            && !(answer is TimedOut),
        Core::start_links().0.accepts(answer) <==> Core::start_links().1.answered_by(answer)
            && !(answer is TimedOut),
        Core::start_message(message, timeout).0.accepts(answer) <==> Core::start_message(
            message,
            timeout,
        ).1.answered_by(answer),
        Core::start_link(address, mode, group).0.accepts(answer) <==> Core::start_link(
            address,
            mode,
            group,
        ).1.answered_by(answer) && !(answer is TimedOut),
{
}

} // verus!
