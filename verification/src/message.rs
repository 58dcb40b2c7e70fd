//! Messages between devices, and the commands that they carry.

use crate::address::{hex_digit, hex_digit_text, Address};
use crate::error::Error;
use crate::flags::MessageFlags;
use crate::frame::Frame;
use vstd::prelude::*;
use vstd::string::StringExecFns;

verus! {

/// A number in decimal digits, without leading zeros.
pub open spec fn decimal_text(n: u8) -> Seq<char> {
    if n >= 100 {
        seq![hex_digit(n / 100), hex_digit((n / 10) % 10), hex_digit(n % 10)]
    } else if n >= 10 {
        seq![hex_digit(n / 10), hex_digit(n % 10)]
    } else {
        seq![hex_digit(n)]
    }
}

fn push_decimal(text: &mut String, n: u8)
    ensures
        final(text)@ == old(text)@ + decimal_text(n),
{
    if n >= 100 {
        text.append(hex_digit_text(n / 100));
    }
    if n >= 10 {
        text.append(hex_digit_text((n / 10) % 10));
    }
    text.append(hex_digit_text(n % 10));
    assert(text@ =~= old(text)@ + decimal_text(n));
}

/// A command byte of a message. The well-known ones have a name; any other
/// byte travels in `Other`.
#[derive(Copy, Clone, Debug, PartialEq, Eq, Structural)]
pub enum Command {
    /// Sent: turns the device on. Received: the device was turned on by hand.
    On,
    /// Sent: turns the device on without ramping. Received: the device was
    /// switched on fast, usually by a double tap.
    OnFast,
    /// Sent: turns the device off. Received: the device was turned off by hand.
    Off,
    /// Sent: turns the device off without ramping. Received: the device was
    /// switched off fast, usually by a double tap.
    OffFast,
    /// Pings the device.
    Ping,
    /// Asks for the protocol version.
    VersionQuery,
    /// Ends linking mode on the device.
    CancelLinking,
    /// Starts linking mode on the device.
    StartLinking,
    /// Asks for the status of the device.
    StatusRequest,
    /// Makes the device beep once.
    Beep,
    /// Any command that has no name here.
    Other(u8),
    /// No command: the byte 0.
    Unset,
}

impl Command {
    /// Whether a byte is one of the commands that have a name, or 0.
    pub open spec fn is_named(b: u8) -> bool {
        b == 0x08 || b == 0x09 || b == 0x0d || b == 0x0f || b == 0x19 || b == 0x11 || b == 0x12
            || b == 0x13 || b == 0x14 || b == 0x30 || b == 0
    }

    /// The command that a byte stands for.
    pub open spec fn of_byte(b: u8) -> Command {
        if b == 0x08 {
            Command::CancelLinking
        } else if b == 0x09 {
            Command::StartLinking
        } else if b == 0x0d {
            Command::VersionQuery
        } else if b == 0x0f {
            Command::Ping
        } else if b == 0x19 {
            Command::StatusRequest
        } else if b == 0x11 {
            Command::On
        } else if b == 0x12 {
            Command::OnFast
        } else if b == 0x13 {
            Command::Off
        } else if b == 0x14 {
            Command::OffFast
        } else if b == 0x30 {
            Command::Beep
        } else if b == 0 {
            Command::Unset
        } else {
            Command::Other(b)
        }
    }

    /// The name of a command, as it is shown: the name of the variant, with
    /// the byte in decimal digits for `Other`, and `None` for no command.
    pub open spec fn text(self) -> Seq<char> {
        match self {
            Command::On => "On"@,
            Command::OnFast => "OnFast"@,
            Command::Off => "Off"@,
            Command::OffFast => "OffFast"@,
            Command::Ping => "Ping"@,
            Command::VersionQuery => "VersionQuery"@,
            Command::CancelLinking => "CancelLinking"@,
            Command::StartLinking => "StartLinking"@,
            Command::StatusRequest => "StatusRequest"@,
            Command::Beep => "Beep"@,
            Command::Other(cmd) => "Other("@ + decimal_text(cmd) + ")"@,
            Command::Unset => "None"@,
        }
    }

    /// The name of the command, as it is shown.
    pub fn to_string(&self) -> (r: String)
        ensures
            r@ == self.text(),
    {
        match self {
            Command::On => String::from_str("On"),
            Command::OnFast => String::from_str("OnFast"),
            Command::Off => String::from_str("Off"),
            Command::OffFast => String::from_str("OffFast"),
            Command::Ping => String::from_str("Ping"),
            Command::VersionQuery => String::from_str("VersionQuery"),
            Command::CancelLinking => String::from_str("CancelLinking"),
            Command::StartLinking => String::from_str("StartLinking"),
            Command::StatusRequest => String::from_str("StatusRequest"),
            Command::Beep => String::from_str("Beep"),
            Command::Other(cmd) => {
                let mut text = String::from_str("Other(");
                push_decimal(&mut text, *cmd);
                text.append(")");
                text
            },
            Command::Unset => String::from_str("None"),
        }
    }

    /// The byte of a command.
    pub open spec fn byte(self) -> u8 {
        match self {
            Command::On => 0x11,
            Command::OnFast => 0x12,
            Command::Off => 0x13,
            Command::OffFast => 0x14,
            Command::Ping => 0x0f,
            Command::VersionQuery => 0x0d,
            Command::CancelLinking => 0x08,
            Command::StartLinking => 0x09,
            Command::StatusRequest => 0x19,
            Command::Beep => 0x30,
            Command::Other(cmd) => cmd,
            Command::Unset => 0,
        }
    }
}

impl Default for Command {
    fn default() -> (r: Command)
        ensures
            r == Command::Unset,
    {
        Command::Unset
    }
}

impl From<u8> for Command {
    fn from(b: u8) -> (r: Command) {
        match b {
            0x08u8 => Command::CancelLinking,
            0x09u8 => Command::StartLinking,
            0x0du8 => Command::VersionQuery,
            0x0fu8 => Command::Ping,
            0x19u8 => Command::StatusRequest,
            0x11u8 => Command::On,
            0x12u8 => Command::OnFast,
            0x13u8 => Command::Off,
            0x14u8 => Command::OffFast,
            0x30u8 => Command::Beep,
            0u8 => Command::Unset,
            _ => Command::Other(b),
        }
    }
}

impl vstd::std_specs::convert::FromSpecImpl<u8> for Command {
    open spec fn obeys_from_spec() -> bool {
        true
    }

    open spec fn from_spec(b: u8) -> Command {
        Command::of_byte(b)
    }
}

impl From<Command> for u8 {
    fn from(c: Command) -> (r: u8) {
        match c {
            Command::On => 0x11u8,
            Command::OnFast => 0x12u8,
            Command::Off => 0x13u8,
            Command::OffFast => 0x14u8,
            Command::Ping => 0x0fu8,
            Command::VersionQuery => 0x0du8,
            Command::CancelLinking => 0x08u8,
            Command::StartLinking => 0x09u8,
            Command::StatusRequest => 0x19u8,
            Command::Beep => 0x30u8,
            Command::Other(cmd) => cmd,
            Command::Unset => 0u8,
        }
    }
}

impl vstd::std_specs::convert::FromSpecImpl<Command> for u8 {
    open spec fn obeys_from_spec() -> bool {
        true
    }

    open spec fn from_spec(c: Command) -> u8 {
        c.byte()
    }
}

/// Every byte comes back from the command that it stands for. A byte without
/// a name travels in `Other`, and `Unset` stands for the byte 0 alone.
pub proof fn lemma_command_of_byte(b: u8)
    ensures
        Command::of_byte(b).byte() == b,
        !Command::is_named(b) ==> Command::of_byte(b) == Command::Other(b),
        Command::of_byte(b) == Command::Unset <==> b == 0,
{
}

/// A named command comes back from its byte; so does `Other` of a byte that
/// has no name.
pub proof fn lemma_byte_of_command(c: Command)
    requires
        c matches Command::Other(b) ==> !Command::is_named(b),
    ensures
        Command::of_byte(c.byte()) == c,
        Command::is_named(c.byte()) <==> !(c is Other),
{
}

/// A message that can be sent to a device, or that came from one.
#[derive(Copy, Clone, Debug, PartialEq, Eq)]
pub struct Message {
    /// The address of the device that sent the message.
    pub from: Address,
    /// The address of the recipient of the message.
    pub to: Address,
    /// Flags that describe the message.
    pub flags: MessageFlags,
    /// The number of hops left.
    pub hops_remaining: u8,
    /// The maximum number of hops allowed for this message.
    pub max_hops: u8,
    /// The first command of the message.
    pub cmd1: Command,
    /// The second command of the message; often a group number or a detail
    /// of `cmd1`.
    pub cmd2: Command,
    /// User data, which only an extended message carries.
    pub data: [u8; 14],
}

/// Fourteen data bytes, all of them 0.
pub open spec fn no_data() -> [u8; 14] {
    [0u8, 0u8, 0u8, 0u8, 0u8, 0u8, 0u8, 0u8, 0u8, 0u8, 0u8, 0u8, 0u8, 0u8]
}

fn empty_data() -> (r: [u8; 14])
    ensures
        r == no_data(),
{
    let r = [0u8; 14];
    assert(r =~= no_data());
    r
}

impl Message {
    /// The message that every constructor starts from: no addresses, no
    /// flags, no commands, no data, and three hops of three.
    pub open spec fn initial() -> Message {
        Message {
            from: Address([0u8, 0u8, 0u8]),
            to: Address([0u8, 0u8, 0u8]),
            flags: MessageFlags { bits: 0 },
            hops_remaining: 3,
            max_hops: 3,
            cmd1: Command::Unset,
            cmd2: Command::Unset,
            data: no_data(),
        }
    }

    /// Whether `other` acknowledges `self`: it comes from the device that
    /// `self` went to and carries the acknowledgement flag. The commands are
    /// not compared.
    pub open spec fn acked_by(self, other: Message) -> bool {
        self.to == other.from && other.flags.has(MessageFlags::ACK)
    }

    /// What a received frame holds as a message. Only the two frames that
    /// report a received message hold one.
    pub open spec fn of_frame(frame: Frame) -> Result<Message, Error> {
        match frame {
            Frame::StandardInsteonReceive {
                from,
                to,
                flags,
                hops_remaining,
                max_hops,
                cmd1,
                cmd2,
            } => Ok(
                Message {
                    from,
                    to,
                    flags,
                    hops_remaining,
                    max_hops,
                    cmd1: Command::of_byte(cmd1),
                    cmd2: Command::of_byte(cmd2),
                    data: no_data(),
                },
            ),
            Frame::ExtendedInsteonReceive {
                from,
                to,
                flags,
                hops_remaining,
                max_hops,
                cmd1,
                cmd2,
                data,
            } => Ok(
                Message {
                    from,
                    to,
                    flags,
                    hops_remaining,
                    max_hops,
                    cmd1: Command::of_byte(cmd1),
                    cmd2: Command::of_byte(cmd2),
                    data,
                },
            ),
            _ => Err(Error::UnexpectedResponse),
        }
    }

    /// The frame that sends this message: an extended send where the message
    /// carries the flag for it, a standard send otherwise.
    pub open spec fn send_frame(self) -> Frame {
        if self.flags.has(MessageFlags::EXTENDED) {
            Frame::ExtendedInsteonSend {
                to: self.to,
                flags: self.flags,
                max_hops: self.max_hops,
                cmd1: self.cmd1.byte(),
                cmd2: self.cmd2.byte(),
                data: self.data,
            }
        } else {
            Frame::StandardInsteonSend {
                to: self.to,
                flags: self.flags,
                max_hops: self.max_hops,
                cmd1: self.cmd1.byte(),
                cmd2: self.cmd2.byte(),
            }
        }
    }

    /// Returns true if `other` is an acknowledgement of `self`.
    pub fn is_ack(&self, other: &Message) -> (r: bool)
        ensures
            r == self.acked_by(*other),
    {
        self.to == other.from && other.flags.contains(MessageFlags::ACK)
    }

    /// Builds the frame that sends this message.
    pub fn to_frame(&self) -> (r: Frame)
        ensures
            r == self.send_frame(),
            r.sendable(),
    {
        if self.flags.contains(MessageFlags::EXTENDED) {
            Frame::ExtendedInsteonSend {
                to: self.to,
                flags: self.flags,
                max_hops: self.max_hops,
                cmd1: u8::from(self.cmd1),
                cmd2: u8::from(self.cmd2),
                data: self.data,
            }
        } else {
            Frame::StandardInsteonSend {
                to: self.to,
                flags: self.flags,
                max_hops: self.max_hops,
                cmd1: u8::from(self.cmd1),
                cmd2: u8::from(self.cmd2),
            }
        }
    }
}

impl Default for Message {
    fn default() -> (r: Message)
        ensures
            r == Message::initial(),
    {
        let r = Message {
            from: Address([0, 0, 0]),
            to: Address([0, 0, 0]),
            flags: MessageFlags::empty(),
            hops_remaining: 3,
            max_hops: 3,
            cmd1: Command::Unset,
            cmd2: Command::Unset,
            data: empty_data(),
        };
        assert(r.from.0 =~= Message::initial().from.0);
        assert(r.to.0 =~= Message::initial().to.0);
        r
    }
}

impl From<(Address, Command)> for Message {
    fn from(c: (Address, Command)) -> (r: Message) {
        let mut msg = Message::default();
        let (to, cmd1) = c;
        msg.to = to;
        msg.cmd1 = cmd1;
        msg
    }
}

impl vstd::std_specs::convert::FromSpecImpl<(Address, Command)> for Message {
    open spec fn obeys_from_spec() -> bool {
        true
    }

    open spec fn from_spec(c: (Address, Command)) -> Message {
        Message { to: c.0, cmd1: c.1, ..Message::initial() }
    }
}

impl From<(Address, Command, Command)> for Message {
    fn from(c: (Address, Command, Command)) -> (r: Message) {
        let mut msg = Message::default();
        let (to, cmd1, cmd2) = c;
        msg.to = to;
        msg.cmd1 = cmd1;
        msg.cmd2 = cmd2;
        msg
    }
}

impl vstd::std_specs::convert::FromSpecImpl<(Address, Command, Command)> for Message {
    open spec fn obeys_from_spec() -> bool {
        true
    }

    open spec fn from_spec(c: (Address, Command, Command)) -> Message {
        Message { to: c.0, cmd1: c.1, cmd2: c.2, ..Message::initial() }
    }
}

impl From<(Address, Command, MessageFlags)> for Message {
    fn from(c: (Address, Command, MessageFlags)) -> (r: Message) {
        let mut msg = Message::default();
        let (to, cmd1, flags) = c;
        msg.to = to;
        msg.cmd1 = cmd1;
        msg.flags = flags;
        msg
    }
}

impl vstd::std_specs::convert::FromSpecImpl<(Address, Command, MessageFlags)> for Message {
    open spec fn obeys_from_spec() -> bool {
        true
    }

    open spec fn from_spec(c: (Address, Command, MessageFlags)) -> Message {
        Message { to: c.0, cmd1: c.1, flags: c.2, ..Message::initial() }
    }
}

impl From<(Address, Command, Command, MessageFlags)> for Message {
    fn from(c: (Address, Command, Command, MessageFlags)) -> (r: Message) {
        let mut msg = Message::default();
        let (to, cmd1, cmd2, flags) = c;
        msg.to = to;
        msg.cmd1 = cmd1;
        msg.cmd2 = cmd2;
        msg.flags = flags;
        msg
    }
}

impl vstd::std_specs::convert::FromSpecImpl<(Address, Command, Command, MessageFlags)> for Message {
    open spec fn obeys_from_spec() -> bool {
        true
    }

    open spec fn from_spec(c: (Address, Command, Command, MessageFlags)) -> Message {
        Message { to: c.0, cmd1: c.1, cmd2: c.2, flags: c.3, ..Message::initial() }
    }
}

impl TryFrom<Frame> for Message {
    type Error = Error;

    fn try_from(frame: Frame) -> (r: Result<Message, Error>) {
        match frame {
            Frame::StandardInsteonReceive {
                from,
                to,
                flags,
                hops_remaining,
                max_hops,
                cmd1,
                cmd2,
            } => Ok(
                Message {
                    from,
                    to,
                    flags,
                    hops_remaining,
                    max_hops,
                    cmd1: Command::from(cmd1),
                    cmd2: Command::from(cmd2),
                    data: empty_data(),
                },
            ),
            Frame::ExtendedInsteonReceive {
                from,
                to,
                flags,
                hops_remaining,
                max_hops,
                cmd1,
                cmd2,
                data,
            } => Ok(
                Message {
                    from,
                    to,
                    flags,
                    hops_remaining,
                    max_hops,
                    cmd1: Command::from(cmd1),
                    cmd2: Command::from(cmd2),
                    data,
                },
            ),
            _ => Err(Error::UnexpectedResponse),
        }
    }
}

impl vstd::std_specs::convert::TryFromSpecImpl<Frame> for Message {
    open spec fn obeys_try_from_spec() -> bool {
        true
    }

    open spec fn try_from_spec(frame: Frame) -> Result<Message, Error> {
        Message::of_frame(frame)
    }
}

} // verus!
