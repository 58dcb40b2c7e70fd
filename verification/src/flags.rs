//! Bit sets carried in message and link-record bytes.
//!
//! A flag set keeps only the bits that have a meaning; every other bit of the
//! byte it was taken from is dropped. `wf` states that, constructors establish
//! it, and the round-trip laws of the codec assume it.

use vstd::prelude::*;

verus! {

/// Details about a message: the high four bits of its flags byte. The low
/// four bits of that byte hold hop counts and are never part of the set.
#[derive(Clone, Copy, Debug, PartialEq, Eq, Structural)]
pub struct MessageFlags {
    pub bits: u8,
}

impl MessageFlags {
    /// Together with `GROUP`: a broadcast to a group. Alone: an
    /// unacknowledged all-link message.
    pub const BROADCAST_OR_NAK: u8 = 0x80u8;

    /// The message is being broadcast to a group.
    pub const GROUP: u8 = 0x40u8;

    /// The message is an acknowledgement of a prior one.
    pub const ACK: u8 = 0x20u8;

    /// The message is an extended message.
    pub const EXTENDED: u8 = 0x10u8;

    /// No flag at all.
    pub const NONE: u8 = 0x00u8;

    /// Every bit that is a message flag.
    pub const ALL: u8 = 0xf0u8;

    /// Only bits that are message flags are set.
    pub open spec fn wf(self) -> bool {
        self.bits & 0x0fu8 == 0
    }

    /// The set that holds exactly the flag bits of `bits`.
    pub open spec fn truncate(bits: u8) -> MessageFlags {
        MessageFlags { bits: bits & 0xf0u8 }
    }

    /// Whether every bit of `mask` is in the set.
    pub open spec fn has(self, mask: u8) -> bool {
        self.bits & mask == mask
    }

    /// The empty set.
    pub fn empty() -> (r: MessageFlags)
        ensures
            r.bits == 0,
            r.wf(),
    {
        assert(0u8 & 0x0fu8 == 0) by (bit_vector);
        MessageFlags { bits: 0 }
    }

    /// Builds a set from a byte, dropping the bits that are no message flag.
    pub fn from_bits_truncate(bits: u8) -> (r: MessageFlags)
        ensures
            r == Self::truncate(bits),
            r.wf(),
    {
        assert((bits & 0xf0u8) & 0x0fu8 == 0) by (bit_vector);
        MessageFlags { bits: bits & 0xf0u8 }
    }

    /// Builds a set from a byte, if the byte holds message flags only.
    pub fn from_bits(bits: u8) -> (r: Option<MessageFlags>)
        ensures
            r == if bits & 0x0fu8 == 0 {
                Some(MessageFlags { bits })
            } else {
                None
            },
    {
        if bits & 0x0f == 0 {
            Some(MessageFlags { bits })
        } else {
            None
        }
    }

    /// The set as a byte.
    pub fn bits(&self) -> (r: u8)
        ensures
            r == self.bits,
    {
        self.bits
    }

    /// Whether every bit of `mask` is in the set.
    pub fn contains(&self, mask: u8) -> (r: bool)
        ensures
            r == self.has(mask),
    {
        self.bits & mask == mask
    }

    /// The set with the flag bits of `mask` added.
    pub fn with(self, mask: u8) -> (r: MessageFlags)
        ensures
            r.bits == self.bits | (mask & 0xf0u8),
            self.wf() ==> r.wf(),
    {
        let bits = self.bits;
        assert(bits & 0x0fu8 == 0 ==> (bits | (mask & 0xf0u8)) & 0x0fu8 == 0) by (bit_vector);
        MessageFlags { bits: bits | (mask & 0xf0u8) }
    }
}

impl Default for MessageFlags {
    fn default() -> (r: MessageFlags)
        ensures
            r.bits == 0,
            r.wf(),
    {
        MessageFlags::empty()
    }
}

/// A flag bit that is in a truncated set was in the byte, and the other way
/// round.
pub proof fn lemma_truncate_has(bits: u8, mask: u8)
    requires
        mask & 0x0fu8 == 0,
    ensures
        MessageFlags::truncate(bits).has(mask) == (bits & mask == mask),
        MessageFlags::truncate(bits).wf(),
{
    assert(mask & 0x0fu8 == 0 ==> (((bits & 0xf0u8) & mask == mask) == (bits & mask == mask)))
        by (bit_vector);
    assert((bits & 0xf0u8) & 0x0fu8 == 0) by (bit_vector);
}

/// Details about a link record: which of the bits of its flags byte are set.
#[derive(Clone, Copy, Debug, PartialEq, Eq, Structural)]
pub struct AllLinkFlags {
    pub bits: u8,
}

impl AllLinkFlags {
    /// The record is in use.
    pub const IN_USE: u8 = 0x80u8;

    /// The modem is the controller of this link; if absent, the responder.
    pub const IS_CONTROLLER: u8 = 0x40u8;

    /// The record has been used before.
    pub const HAS_BEEN_USED: u8 = 0x02u8;

    /// No flag at all.
    pub const NONE: u8 = 0x00u8;

    /// Every bit that is a link flag.
    pub const ALL: u8 = 0xc2u8;

    /// Only bits that are link flags are set.
    pub open spec fn wf(self) -> bool {
        self.bits & 0x3du8 == 0
    }

    /// The set that holds exactly the flag bits of `bits`.
    pub open spec fn truncate(bits: u8) -> AllLinkFlags {
        AllLinkFlags { bits: bits & 0xc2u8 }
    }

    /// Whether every bit of `mask` is in the set.
    pub open spec fn has(self, mask: u8) -> bool {
        self.bits & mask == mask
    }

    /// The empty set.
    pub fn empty() -> (r: AllLinkFlags)
        ensures
            r.bits == 0,
            r.wf(),
    {
        assert(0u8 & 0x3du8 == 0) by (bit_vector);
        AllLinkFlags { bits: 0 }
    }

    /// Builds a set from a byte, dropping the bits that are no link flag.
    pub fn from_bits_truncate(bits: u8) -> (r: AllLinkFlags)
        ensures
            r == Self::truncate(bits),
            r.wf(),
    {
        assert((bits & 0xc2u8) & 0x3du8 == 0) by (bit_vector);
        AllLinkFlags { bits: bits & 0xc2u8 }
    }

    /// The set as a byte.
    pub fn bits(&self) -> (r: u8)
        ensures
            r == self.bits,
    {
        self.bits
    }

    /// Whether every bit of `mask` is in the set.
    pub fn contains(&self, mask: u8) -> (r: bool)
        ensures
            r == self.has(mask),
    {
        self.bits & mask == mask
    }
}

} // verus!
