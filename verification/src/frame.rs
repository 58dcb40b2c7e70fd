//! The frames that cross the link between host and modem.

use crate::address::Address;
use crate::constants::{
    LINK_MODE_AUTO, LINK_MODE_CONTROLLER, LINK_MODE_DELETE, LINK_MODE_RESPONDER,
};
use crate::flags::{AllLinkFlags, MessageFlags};
use vstd::prelude::*;
use vstd::string::StringExecFns;

verus! {

/// The link modes available.
#[derive(Clone, Copy, Debug, PartialEq, Eq, Structural)]
pub enum AllLinkMode {
    /// The modem is linked as a responder, a receiver of events.
    Responder,
    /// The modem is linked as a controller.
    Controller,
    /// The effective mode depends on the order in which the modem and the
    /// device are put into linking mode.
    Auto,
    /// Causes a link to be deleted.
    Delete,
    /// In a completed link: no link was made. It has no byte of its own and
    /// is never sent.
    NoLink,
}

impl AllLinkMode {
    /// The mode that a byte read from the wire stands for.
    pub open spec fn of_byte(b: u8) -> AllLinkMode {
        if b == LINK_MODE_RESPONDER {
            AllLinkMode::Responder
        } else if b == LINK_MODE_CONTROLLER {
            AllLinkMode::Controller
        } else if b == LINK_MODE_AUTO {
            AllLinkMode::Auto
        } else if b == LINK_MODE_DELETE {
            AllLinkMode::Delete
        } else {
            AllLinkMode::NoLink
        }
    }

    /// The byte that is sent for a mode, for the modes that can be sent.
    pub open spec fn wire_byte(self) -> Option<u8> {
        match self {
            AllLinkMode::Responder => Some(LINK_MODE_RESPONDER),
            AllLinkMode::Controller => Some(LINK_MODE_CONTROLLER),
            AllLinkMode::Auto => Some(LINK_MODE_AUTO),
            AllLinkMode::Delete => Some(LINK_MODE_DELETE),
            AllLinkMode::NoLink => None,
        }
    }

    /// The name of a mode, as it is shown: the name of the variant, and
    /// `None` where no link was made.
    pub open spec fn text(self) -> Seq<char> {
        match self {
            AllLinkMode::Responder => "Responder"@,
            AllLinkMode::Controller => "Controller"@,
            AllLinkMode::Auto => "Auto"@,
            AllLinkMode::Delete => "Delete"@,
            AllLinkMode::NoLink => "None"@,
        }
    }

    /// The name of the mode, as it is shown.
    pub fn to_string(&self) -> (r: String)
        ensures
            r@ == self.text(),
    {
        match self {
            AllLinkMode::Responder => String::from_str("Responder"),
            AllLinkMode::Controller => String::from_str("Controller"),
            AllLinkMode::Auto => String::from_str("Auto"),
            AllLinkMode::Delete => String::from_str("Delete"),
            AllLinkMode::NoLink => String::from_str("None"),
        }
    }

    /// The byte that is sent for this mode. `NoLink` cannot be sent.
    pub fn byte(self) -> (r: u8)
        requires
            self != AllLinkMode::NoLink,
        ensures
            self.wire_byte() == Some(r),
    {
        match self {
            AllLinkMode::Responder => LINK_MODE_RESPONDER,
            AllLinkMode::Controller => LINK_MODE_CONTROLLER,
            AllLinkMode::Auto => LINK_MODE_AUTO,
            _ => LINK_MODE_DELETE,
        }
    }
}

impl From<u8> for AllLinkMode {
    fn from(mode: u8) -> (r: AllLinkMode) {
        if mode == LINK_MODE_RESPONDER {
            AllLinkMode::Responder
        } else if mode == LINK_MODE_CONTROLLER {
            AllLinkMode::Controller
        } else if mode == LINK_MODE_AUTO {
            AllLinkMode::Auto
        } else if mode == LINK_MODE_DELETE {
            AllLinkMode::Delete
        } else {
            AllLinkMode::NoLink
        }
    }
}

impl vstd::std_specs::convert::FromSpecImpl<u8> for AllLinkMode {
    open spec fn obeys_from_spec() -> bool {
        true
    }

    open spec fn from_spec(mode: u8) -> AllLinkMode {
        AllLinkMode::of_byte(mode)
    }
}

/// A mode that can be sent reads back as itself.
pub proof fn lemma_mode_round_trip(mode: AllLinkMode)
    requires
        mode != AllLinkMode::NoLink,
    ensures
        mode.wire_byte() is Some,
        AllLinkMode::of_byte(mode.wire_byte()->0) == mode,
{
}

/// Information about the attached modem.
#[derive(Clone, Copy, Debug, PartialEq, Eq)]
pub struct ModemInfo {
    /// The address of the modem.
    pub address: Address,
    /// The device category of the modem.
    pub category: u8,
    /// The sub-category of the modem.
    pub sub_category: u8,
    /// The firmware version present in the modem.
    pub firmware_version: u8,
}

/// A single record of the modem's link database.
#[derive(Clone, Copy, Debug, PartialEq, Eq)]
pub struct AllLinkRecord {
    pub flags: AllLinkFlags,
    pub group: u8,
    pub to: Address,
    pub data: [u8; 3],
}

/// The result of a linking cycle.
#[derive(Clone, Copy, Debug, PartialEq, Eq)]
pub struct AllLinkComplete {
    pub mode: AllLinkMode,
    pub group: u8,
    pub address: Address,
    pub category: u8,
    pub sub_category: u8,
    pub firmware_version: u8,
}

/// A single command or response to and from the modem.
#[derive(Clone, Debug, PartialEq, Eq)]
pub enum Frame {
    /// Asks for the info of the modem. The response is a `ModemInfo` frame.
    GetModemInfo,
    /// The response to `GetModemInfo`.
    ModemInfo(ModemInfo),
    /// Sends a standard-length INSTEON message.
    StandardInsteonSend {
        /// The target of the message.
        to: Address,
        /// The flags of the message.
        flags: MessageFlags,
        /// The maximum number of hops of the message. 3 is normally enough.
        max_hops: u8,
        cmd1: u8,
        cmd2: u8,
    },
    /// Sends an extended-length INSTEON message.
    ExtendedInsteonSend {
        /// The target of the message.
        to: Address,
        /// The flags of the message.
        flags: MessageFlags,
        /// The maximum number of hops of the message. 3 is normally enough.
        max_hops: u8,
        cmd1: u8,
        cmd2: u8,
        /// The extended data, which is device-specific. Its last byte is
        /// replaced by a checksum when the frame is written.
        data: [u8; 14],
    },
    /// A standard INSTEON message was received.
    StandardInsteonReceive {
        /// The device that sent the message.
        from: Address,
        /// The intended recipient of the message.
        to: Address,
        flags: MessageFlags,
        /// The number of hops that were left when the message was received.
        hops_remaining: u8,
        /// The maximum number of hops allowed for this message.
        max_hops: u8,
        cmd1: u8,
        cmd2: u8,
    },
    /// An extended INSTEON message was received.
    ExtendedInsteonReceive {
        from: Address,
        to: Address,
        flags: MessageFlags,
        hops_remaining: u8,
        max_hops: u8,
        cmd1: u8,
        cmd2: u8,
        data: [u8; 14],
    },
    /// Puts the modem into linking mode.
    StartAllLink { mode: AllLinkMode, group: u8 },
    /// Leaves linking mode.
    CancelAllLink,
    /// A linking cycle has ended.
    AllLinkComplete(AllLinkComplete),
    GetFirstAllLinkRecord,
    GetNextAllLinkRecord,
    /// One record of the link database.
    AllLinkRecord(AllLinkRecord),
    Reset,
    AllLinkCommand { group: u8, cmd1: u8, cmd2: u8 },
    /// Bytes that were skipped after a stray acknowledgement byte, up to the
    /// next start byte.
    Unknown { buf: Vec<u8> },
}

impl Frame {
    /// A number for each variant, whatever its fields hold.
    pub open spec fn variant(self) -> int {
        match self {
            Frame::GetModemInfo => 0,
            Frame::ModemInfo(_) => 1,
            Frame::StandardInsteonSend { .. } => 2,
            Frame::ExtendedInsteonSend { .. } => 3,
            Frame::StandardInsteonReceive { .. } => 4,
            Frame::ExtendedInsteonReceive { .. } => 5,
            Frame::StartAllLink { .. } => 6,
            Frame::CancelAllLink => 7,
            Frame::AllLinkComplete(_) => 8,
            Frame::GetFirstAllLinkRecord => 9,
            Frame::GetNextAllLinkRecord => 10,
            Frame::AllLinkRecord(_) => 11,
            Frame::Reset => 12,
            Frame::AllLinkCommand { .. } => 13,
            Frame::Unknown { .. } => 14,
        }
    }

    /// Whether `other` can be the reply to `self`: the info of the modem to a
    /// request for it, or else a frame of the same variant. The fields are
    /// not compared.
    pub open spec fn answered_by(self, other: Frame) -> bool {
        (self is GetModemInfo && other is ModemInfo) || self.variant() == other.variant()
    }

    /// Whether the frame is one that a host sends: the variants that the
    /// modem only ever produces are not, and neither is a request to link in
    /// the mode `NoLink`.
    pub open spec fn sendable(self) -> bool {
        match self {
            Frame::GetModemInfo => true,
            Frame::StandardInsteonSend { .. } => true,
            Frame::ExtendedInsteonSend { .. } => true,
            Frame::StartAllLink { mode, .. } => mode != AllLinkMode::NoLink,
            Frame::CancelAllLink => true,
            Frame::GetFirstAllLinkRecord => true,
            Frame::GetNextAllLinkRecord => true,
            Frame::Reset => true,
            Frame::AllLinkCommand { .. } => true,
            _ => false,
        }
    }

    /// Returns true if `other` is a response to `self`.
    pub fn is_response(&self, other: &Frame) -> (r: bool)
        ensures
            r == self.answered_by(*other),
    {
        match (self, other) {
            (Frame::GetModemInfo, Frame::ModemInfo(_)) => true,
            (Frame::GetModemInfo, Frame::GetModemInfo) => true,
            (Frame::ModemInfo(_), Frame::ModemInfo(_)) => true,
            (Frame::StandardInsteonSend { .. }, Frame::StandardInsteonSend { .. }) => true,
            (Frame::ExtendedInsteonSend { .. }, Frame::ExtendedInsteonSend { .. }) => true,
            (Frame::StandardInsteonReceive { .. }, Frame::StandardInsteonReceive { .. }) => true,
            (Frame::ExtendedInsteonReceive { .. }, Frame::ExtendedInsteonReceive { .. }) => true,
            (Frame::StartAllLink { .. }, Frame::StartAllLink { .. }) => true,
            (Frame::CancelAllLink, Frame::CancelAllLink) => true,
            (Frame::AllLinkComplete(_), Frame::AllLinkComplete(_)) => true,
            (Frame::GetFirstAllLinkRecord, Frame::GetFirstAllLinkRecord) => true,
            (Frame::GetNextAllLinkRecord, Frame::GetNextAllLinkRecord) => true,
            (Frame::AllLinkRecord(_), Frame::AllLinkRecord(_)) => true,
            (Frame::Reset, Frame::Reset) => true,
            (Frame::AllLinkCommand { .. }, Frame::AllLinkCommand { .. }) => true,
            (Frame::Unknown { .. }, Frame::Unknown { .. }) => true,
            _ => false,
        }
    }

    /// Whether the frame is one that a host sends.
    pub fn is_sendable(&self) -> (r: bool)
        ensures
            r == self.sendable(),
    {
        match self {
            Frame::GetModemInfo => true,
            Frame::StandardInsteonSend { .. } => true,
            Frame::ExtendedInsteonSend { .. } => true,
            Frame::StartAllLink { mode, .. } => match mode {
                AllLinkMode::NoLink => false,
                _ => true,
            },
            Frame::CancelAllLink => true,
            Frame::GetFirstAllLinkRecord => true,
            Frame::GetNextAllLinkRecord => true,
            Frame::Reset => true,
            Frame::AllLinkCommand { .. } => true,
            _ => false,
        }
    }
}

} // verus!
