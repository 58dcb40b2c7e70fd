//! The frame codec: which bytes make which frame, and back.
//!
//! Decoding looks at the start of a buffer and either finds one frame there,
//! or needs more bytes, or knows that no frame can start like this. The
//! grammar is `decode_spec`; `Frame::decode` computes it.

use crate::address::Address;
use crate::buffer::{
    advance, buffer_bytes, buffer_len, contents, extend_from_slice, new_buffer, put_slice, put_u8,
};
use crate::constants::{
    ACK, ALL_LINK_COMPLETE, ALL_LINK_RECORD, ALL_LINK_SEND, CANCEL_ALL_LINK,
    EXTENDED_INSTEON_RECV, GETIMINFO, GET_FIRST_ALL_LINK_RECORD, GET_NEXT_ALL_LINK_RECORD,
    INSTEON_SEND, NAK, RESET, STANDARD_INSTEON_RECV, START, START_ALL_LINK,
};
use crate::error::Error;
use crate::flags::{AllLinkFlags, MessageFlags};
use crate::frame::{AllLinkComplete, AllLinkMode, AllLinkRecord, Frame, ModemInfo};
use bytes::BytesMut;
use vstd::prelude::*;
use vstd::slice::{slice_subrange, slice_to_vec};

verus! {

/// What the grammar makes of the start of a buffer.
pub enum Decoded {
    /// The bytes so far can still become a frame: more are needed.
    Incomplete,
    /// No frame starts with these bytes.
    Malformed,
    /// A stray acknowledgement byte, then `garbage`, then a start byte. The
    /// stray byte and the garbage are consumed, the start byte is not.
    Resync { garbage: Seq<u8> },
    /// A frame in its layout, `consumed` bytes long. `ack` is its trailing
    /// byte where the layout has one, and `ACK` where it has none.
    Structured { consumed: nat, ack: u8, frame: Frame },
}

impl Decoded {
    /// The number of bytes that decoding takes out of the buffer.
    pub open spec fn consumed(self) -> nat {
        match self {
            Decoded::Incomplete => 0,
            Decoded::Malformed => 0,
            Decoded::Resync { garbage } => 1 + garbage.len(),
            Decoded::Structured { consumed, .. } => consumed,
        }
    }

    /// Whether `r` is what decoding returns for this reading of the buffer:
    /// nothing yet, a parse error, the skipped garbage as an `Unknown` frame,
    /// or the frame where it was acknowledged and an error where it was not.
    pub open spec fn yields(self, r: Result<Option<Frame>, Error>) -> bool {
        match self {
            Decoded::Incomplete => r == Ok::<Option<Frame>, Error>(None),
            Decoded::Malformed => r == Err::<Option<Frame>, Error>(Error::Parse),
            Decoded::Resync { garbage } => {
                &&& r matches Ok(Some(Frame::Unknown { buf }))
                &&& buf@ == garbage
            },
            Decoded::Structured { ack, frame, .. } => if ack == ACK {
                r == Ok::<Option<Frame>, Error>(Some(frame))
            } else {
                r == Err::<Option<Frame>, Error>(Error::NotAcknowledged)
            },
        }
    }
}

/// The index of the first start byte at or after `from`, if there is one.
pub open spec fn find_start(b: Seq<u8>, from: int) -> Option<int>
    decreases b.len() - from,
{
    if from < 0 || from >= b.len() {
        None
    } else if b[from] == START {
        Some(from)
    } else {
        find_start(b, from + 1)
    }
}

/// Whether a byte can end a frame that has a trailing acknowledgement.
pub open spec fn is_terminator(x: u8) -> bool {
    x == ACK || x == NAK
}

/// The hops that were left, as the flags byte of a message holds them.
pub open spec fn hops_remaining_of(flags: u8) -> u8 {
    (flags & 0x0cu8) >> 2u8
}

/// The hops allowed, as the flags byte of a message holds them.
pub open spec fn max_hops_of(flags: u8) -> u8 {
    flags & 0x03u8
}

pub open spec fn address_at(b: Seq<u8>, at: int) -> Address {
    Address([b[at], b[at + 1], b[at + 2]])
}

pub open spec fn link_data_at(b: Seq<u8>, at: int) -> [u8; 3] {
    [b[at], b[at + 1], b[at + 2]]
}

pub open spec fn data_at(b: Seq<u8>, at: int) -> [u8; 14] {
    [
        b[at],
        b[at + 1],
        b[at + 2],
        b[at + 3],
        b[at + 4],
        b[at + 5],
        b[at + 6],
        b[at + 7],
        b[at + 8],
        b[at + 9],
        b[at + 10],
        b[at + 11],
        b[at + 12],
        b[at + 13],
    ]
}

/// `02 60 addr[3] cat subcat fw` and a trailing byte.
pub open spec fn modem_info_at(b: Seq<u8>) -> Frame {
    Frame::ModemInfo(
        ModemInfo {
            address: address_at(b, 2),
            category: b[5],
            sub_category: b[6],
            firmware_version: b[7],
        },
    )
}

/// `02 50 from[3] to[3] flags cmd1 cmd2`.
pub open spec fn standard_receive_at(b: Seq<u8>) -> Frame {
    Frame::StandardInsteonReceive {
        from: address_at(b, 2),
        to: address_at(b, 5),
        flags: MessageFlags::truncate(b[8]),
        hops_remaining: hops_remaining_of(b[8]),
        max_hops: max_hops_of(b[8]),
        cmd1: b[9],
        cmd2: b[10],
    }
}

/// `02 51 from[3] to[3] flags cmd1 cmd2 data[14]`.
pub open spec fn extended_receive_at(b: Seq<u8>) -> Frame {
    Frame::ExtendedInsteonReceive {
        from: address_at(b, 2),
        to: address_at(b, 5),
        flags: MessageFlags::truncate(b[8]),
        hops_remaining: hops_remaining_of(b[8]),
        max_hops: max_hops_of(b[8]),
        cmd1: b[9],
        cmd2: b[10],
        data: data_at(b, 11),
    }
}

/// `02 62 to[3] flags cmd1 cmd2` and a trailing byte.
pub open spec fn standard_send_at(b: Seq<u8>) -> Frame {
    Frame::StandardInsteonSend {
        to: address_at(b, 2),
        flags: MessageFlags::truncate(b[5]),
        max_hops: max_hops_of(b[5]),
        cmd1: b[6],
        cmd2: b[7],
    }
}

/// `02 62 to[3] flags cmd1 cmd2 data[14]` and a trailing byte.
pub open spec fn extended_send_at(b: Seq<u8>) -> Frame {
    Frame::ExtendedInsteonSend {
        to: address_at(b, 2),
        flags: MessageFlags::truncate(b[5]),
        max_hops: max_hops_of(b[5]),
        cmd1: b[6],
        cmd2: b[7],
        data: data_at(b, 8),
    }
}

/// `02 64 mode group` and a trailing byte.
pub open spec fn start_all_link_at(b: Seq<u8>) -> Frame {
    Frame::StartAllLink { mode: AllLinkMode::of_byte(b[2]), group: b[3] }
}

/// `02 53 mode group from[3] cat subcat fw`.
pub open spec fn all_link_complete_at(b: Seq<u8>) -> Frame {
    Frame::AllLinkComplete(
        AllLinkComplete {
            mode: AllLinkMode::of_byte(b[2]),
            group: b[3],
            address: address_at(b, 4),
            category: b[7],
            sub_category: b[8],
            firmware_version: b[9],
        },
    )
}

/// `02 57 flags group to[3] data[3]`.
pub open spec fn all_link_record_at(b: Seq<u8>) -> Frame {
    Frame::AllLinkRecord(
        AllLinkRecord {
            flags: AllLinkFlags::truncate(b[2]),
            group: b[3],
            to: address_at(b, 4),
            data: link_data_at(b, 7),
        },
    )
}

/// `02 61 group cmd1 cmd2` and a trailing byte.
pub open spec fn all_link_command_at(b: Seq<u8>) -> Frame {
    Frame::AllLinkCommand { group: b[2], cmd1: b[3], cmd2: b[4] }
}

/// A layout of `n` bytes without a trailing byte: always acknowledged.
pub open spec fn fixed(b: Seq<u8>, n: nat, frame: Frame) -> Decoded {
    if b.len() < n {
        Decoded::Incomplete
    } else {
        Decoded::Structured { consumed: n, ack: ACK, frame }
    }
}

/// A layout of `n` bytes whose last byte says whether the modem
/// acknowledged. Any other byte there fits no layout.
pub open spec fn terminated(b: Seq<u8>, n: nat, frame: Frame) -> Decoded {
    if b.len() < n {
        Decoded::Incomplete
    } else if is_terminator(b[n - 1]) {
        Decoded::Structured { consumed: n, ack: b[n - 1], frame }
    } else {
        Decoded::Malformed
    }
}

/// The reading of a buffer that starts with a start byte and a command byte.
/// A send is read as a standard one where the byte after its fields is a
/// trailing byte, and as an extended one otherwise.
pub open spec fn decode_structured(b: Seq<u8>) -> Decoded {
    let cmd = b[1];
    if cmd == GETIMINFO {
        terminated(b, 9, modem_info_at(b))
    } else if cmd == STANDARD_INSTEON_RECV {
        fixed(b, 11, standard_receive_at(b))
    } else if cmd == EXTENDED_INSTEON_RECV {
        fixed(b, 25, extended_receive_at(b))
    } else if cmd == INSTEON_SEND {
        if b.len() >= 9 && is_terminator(b[8]) {
            Decoded::Structured { consumed: 9, ack: b[8], frame: standard_send_at(b) }
        } else {
            terminated(b, 23, extended_send_at(b))
        }
    } else if cmd == START_ALL_LINK {
        terminated(b, 5, start_all_link_at(b))
    } else if cmd == CANCEL_ALL_LINK {
        terminated(b, 3, Frame::CancelAllLink)
    } else if cmd == ALL_LINK_COMPLETE {
        fixed(b, 10, all_link_complete_at(b))
    } else if cmd == GET_FIRST_ALL_LINK_RECORD {
        terminated(b, 3, Frame::GetFirstAllLinkRecord)
    } else if cmd == GET_NEXT_ALL_LINK_RECORD {
        terminated(b, 3, Frame::GetNextAllLinkRecord)
    } else if cmd == ALL_LINK_RECORD {
        fixed(b, 10, all_link_record_at(b))
    } else if cmd == RESET {
        terminated(b, 3, Frame::Reset)
    } else if cmd == ALL_LINK_SEND {
        terminated(b, 6, all_link_command_at(b))
    } else {
        Decoded::Malformed
    }
}

/// The grammar of the wire format, as a reading of the start of `b`.
///
/// A stray acknowledgement byte is skipped together with everything up to the
/// next start byte. Anything else has to begin with a start byte and a known
/// command byte, which fixes the layout.
pub open spec fn decode_spec(b: Seq<u8>) -> Decoded {
    if b.len() == 0 {
        Decoded::Incomplete
    } else if b[0] == ACK {
        match find_start(b, 1) {
            Some(n) => Decoded::Resync { garbage: b.subrange(1, n) },
            None => Decoded::Incomplete,
        }
    } else if b[0] != START {
        Decoded::Malformed
    } else if b.len() == 1 {
        Decoded::Incomplete
    } else {
        decode_structured(b)
    }
}

/// The flags byte as it is sent: the flags in the high four bits, and the
/// hop count twice below them, as hops left and as hops allowed.
pub open spec fn flags_byte(flags: MessageFlags, max_hops: u8) -> u8 {
    flags.bits | ((max_hops & 0x03u8) << 2u8) | (max_hops & 0x03u8)
}

/// The sum of the bytes of `s`.
pub open spec fn sum_bytes(s: Seq<u8>) -> nat
    decreases s.len(),
{
    if s.len() == 0 {
        0
    } else {
        sum_bytes(s.drop_last()) + s.last() as nat
    }
}

/// The checksum of an extended send: the two's complement, in eight bits, of
/// the sum of both command bytes and of all fourteen data bytes.
pub open spec fn checksum(cmd1: u8, cmd2: u8, data: Seq<u8>) -> u8 {
    let sum = cmd1 as nat + cmd2 as nat + sum_bytes(data);
    ((256 - sum % 256) % 256) as u8
}

impl Frame {
    /// The bytes that are written for a frame that a host sends. An extended
    /// send carries its first thirteen data bytes and then the checksum, in
    /// place of the fourteenth. For a frame that is not sent, nothing.
    pub open spec fn encoding(self) -> Seq<u8> {
        match self {
            Frame::GetModemInfo => seq![START, GETIMINFO],
            Frame::StandardInsteonSend { to, flags, max_hops, cmd1, cmd2 } => seq![
                START,
                INSTEON_SEND,
            ] + to.bytes() + seq![flags_byte(flags, max_hops), cmd1, cmd2],
            Frame::ExtendedInsteonSend { to, flags, max_hops, cmd1, cmd2, data } => seq![
                START,
                INSTEON_SEND,
            ] + to.bytes() + seq![flags_byte(flags, max_hops), cmd1, cmd2] + data@.take(13)
                + seq![checksum(cmd1, cmd2, data@)],
            Frame::StartAllLink { mode, group } => if mode != AllLinkMode::NoLink {
                seq![START, START_ALL_LINK, mode.wire_byte()->0, group]
            } else {
                Seq::empty()
            },
            Frame::CancelAllLink => seq![START, CANCEL_ALL_LINK],
            Frame::GetFirstAllLinkRecord => seq![START, GET_FIRST_ALL_LINK_RECORD],
            Frame::GetNextAllLinkRecord => seq![START, GET_NEXT_ALL_LINK_RECORD],
            Frame::Reset => seq![START, RESET],
            Frame::AllLinkCommand { group, cmd1, cmd2 } => seq![
                START,
                ALL_LINK_SEND,
                group,
                cmd1,
                cmd2,
            ],
            _ => Seq::empty(),
        }
    }
}

/// The number of bytes of the longest frame that is written.
pub const LONGEST_ENCODING: usize = 22;

/// No frame is written in more than `LONGEST_ENCODING` bytes, and none that
/// a host sends in less than two.
pub proof fn lemma_encoding_len(frame: Frame)
    ensures
        frame.encoding().len() <= LONGEST_ENCODING,
        frame.sendable() ==> frame.encoding().len() >= 2,
{
}

/// Where `find_start` finds a start byte, it is the first one from `from` on;
/// where it finds none, there is none.
pub proof fn lemma_find_start(b: Seq<u8>, from: int)
    requires
        0 <= from,
    ensures
        match find_start(b, from) {
            Some(n) => {
                &&& from <= n < b.len()
                &&& b[n] == START
                &&& forall|i: int| from <= i < n ==> b[i] != START
            },
            None => forall|i: int| from <= i < b.len() ==> b[i] != START,
        },
    decreases b.len() - from,
{
    if from < b.len() && b[from] != START {
        lemma_find_start(b, from + 1);
    }
}

/// Decoding never takes more bytes than the buffer holds.
pub proof fn lemma_consumed_in_buffer(b: Seq<u8>)
    ensures
        decode_spec(b).consumed() <= b.len(),
{
    if b.len() > 0 && b[0] == ACK {
        lemma_find_start(b, 1);
    }
}

fn address_from(src: &[u8], at: usize) -> (r: Address)
    requires
        at + 3 <= src@.len(),
    ensures
        r == address_at(src@, at as int),
{
    let r = Address([src[at], src[at + 1], src[at + 2]]);
    assert(r.0 =~= address_at(src@, at as int).0);
    r
}

/// Copies a slice of fourteen bytes into an array.
pub fn clone_from_slice(slice: &[u8]) -> (a: [u8; 14])
    requires
        slice@.len() == 14,
    ensures
        a@ == slice@,
        a == data_at(slice@, 0),
{
    let a = [
        slice[0],
        slice[1],
        slice[2],
        slice[3],
        slice[4],
        slice[5],
        slice[6],
        slice[7],
        slice[8],
        slice[9],
        slice[10],
        slice[11],
        slice[12],
        slice[13],
    ];
    assert(a@ =~= slice@);
    assert(a =~= data_at(slice@, 0));
    a
}

fn data_from(src: &[u8], at: usize) -> (a: [u8; 14])
    requires
        at + 14 <= src@.len(),
    ensures
        a == data_at(src@, at as int),
{
    let len = src.len();
    assert(at + 14 <= len);
    let a = clone_from_slice(slice_subrange(src, at, at + 14));
    assert(a =~= data_at(src@, at as int));
    a
}

/// Computes the checksum of an extended send.
fn checksum_of(cmd1: u8, cmd2: u8, data: &[u8; 14]) -> (c: u8)
    ensures
        c == checksum(cmd1, cmd2, data@),
{
    let mut sum: u32 = cmd1 as u32 + cmd2 as u32;
    let mut i: usize = 0;
    assert(data@.take(0) =~= Seq::<u8>::empty());
    while i < 14
        invariant
            i <= 14,
            sum == cmd1 as nat + cmd2 as nat + sum_bytes(data@.take(i as int)),
            sum <= 510 + 255 * i,
        decreases 14 - i,
    {
        assert(data@.take(i + 1).drop_last() =~= data@.take(i as int));
        sum = sum + data[i] as u32;
        i = i + 1;
    }
    assert(data@.take(14) =~= data@);
    // Negate, add one, keep the low eight bits.
    let negated: u64 = (!sum) as u64 + 1;
    let c = (negated & 0xff) as u8;
    assert(c == ((256 - sum % 256) % 256) as u8) by (bit_vector)
        requires
            negated == (!sum) as u64 + 1,
            c == (negated & 0xff) as u8,
    ;
    c
}

/// The outcome for a layout of `consumed` bytes that ends in `ack`.
fn close(consumed: usize, ack: u8, frame: Frame) -> (r: (usize, Result<Option<Frame>, Error>))
    ensures
        ack == ACK ==> r == (consumed, Ok::<Option<Frame>, Error>(Some(frame))),
        ack == NAK ==> r == (consumed, Err::<Option<Frame>, Error>(Error::NotAcknowledged)),
        !is_terminator(ack) ==> r == (0usize, Err::<Option<Frame>, Error>(Error::Parse)),
{
    if ack == ACK {
        (consumed, Ok(Some(frame)))
    } else if ack == NAK {
        (consumed, Err(Error::NotAcknowledged))
    } else {
        (0, Err(Error::Parse))
    }
}

/// Skips a stray acknowledgement byte and what follows, up to a start byte.
fn resync(src: &[u8]) -> (r: (usize, Result<Option<Frame>, Error>))
    requires
        src@.len() > 0,
        src@[0] == ACK,
    ensures
        r.0 == decode_spec(src@).consumed(),
        decode_spec(src@).yields(r.1),
{
    let len = src.len();
    let mut n: usize = 1;
    while n < len && src[n] != START
        invariant
            1 <= n <= len,
            len == src@.len(),
            find_start(src@, 1) == find_start(src@, n as int),
        decreases len - n,
    {
        n = n + 1;
    }
    if n < len {
        let buf = slice_to_vec(slice_subrange(src, 1, n));
        (n, Ok(Some(Frame::Unknown { buf })))
    } else {
        (0, Ok(None))
    }
}

impl Frame {
    /// Reads one frame from the start of `src`. Returns the number of bytes
    /// that the frame takes, and the frame; `Ok(None)` where more bytes are
    /// needed, and an error where no frame starts like this or where the
    /// frame was not acknowledged. A frame that was not acknowledged still
    /// takes its bytes.
    pub fn decode(src: &[u8]) -> (r: (usize, Result<Option<Frame>, Error>))
        ensures
            r.0 == decode_spec(src@).consumed(),
            r.0 <= src@.len(),
            decode_spec(src@).yields(r.1),
    {
        proof {
            lemma_consumed_in_buffer(src@);
        }
        let len = src.len();
        if len == 0 {
            return (0, Ok(None));
        }
        let first = src[0];
        if first == ACK {
            return resync(src);
        }
        if first != START {
            return (0, Err(Error::Parse));
        }
        if len == 1 {
            return (0, Ok(None));
        }
        let cmd = src[1];
        if cmd == GETIMINFO {
            if len < 9 {
                return (0, Ok(None));
            }
            let info = ModemInfo {
                address: address_from(src, 2),
                category: src[5],
                sub_category: src[6],
                firmware_version: src[7],
            };
            close(9, src[8], Frame::ModemInfo(info))
        } else if cmd == STANDARD_INSTEON_RECV {
            if len < 11 {
                return (0, Ok(None));
            }
            let flags = src[8];
            (
                11,
                Ok(
                    Some(
                        Frame::StandardInsteonReceive {
                            from: address_from(src, 2),
                            to: address_from(src, 5),
                            flags: MessageFlags::from_bits_truncate(flags),
                            hops_remaining: (flags & 0x0c) >> 2,
                            max_hops: flags & 0x03,
                            cmd1: src[9],
                            cmd2: src[10],
                        },
                    ),
                ),
            )
        } else if cmd == EXTENDED_INSTEON_RECV {
            if len < 25 {
                return (0, Ok(None));
            }
            let flags = src[8];
            (
                25,
                Ok(
                    Some(
                        Frame::ExtendedInsteonReceive {
                            from: address_from(src, 2),
                            to: address_from(src, 5),
                            flags: MessageFlags::from_bits_truncate(flags),
                            hops_remaining: (flags & 0x0c) >> 2,
                            max_hops: flags & 0x03,
                            cmd1: src[9],
                            cmd2: src[10],
                            data: data_from(src, 11),
                        },
                    ),
                ),
            )
        } else if cmd == INSTEON_SEND {
            if len < 9 {
                return (0, Ok(None));
            }
            let flags = src[5];
            if src[8] == ACK || src[8] == NAK {
                return close(
                    9,
                    src[8],
                    Frame::StandardInsteonSend {
                        to: address_from(src, 2),
                        flags: MessageFlags::from_bits_truncate(flags),
                        max_hops: flags & 0x03,
                        cmd1: src[6],
                        cmd2: src[7],
                    },
                );
            }
            if len < 23 {
                return (0, Ok(None));
            }
            close(
                23,
                src[22],
                Frame::ExtendedInsteonSend {
                    to: address_from(src, 2),
                    flags: MessageFlags::from_bits_truncate(flags),
                    max_hops: flags & 0x03,
                    cmd1: src[6],
                    cmd2: src[7],
                    data: data_from(src, 8),
                },
            )
        } else if cmd == START_ALL_LINK {
            if len < 5 {
                return (0, Ok(None));
            }
            close(5, src[4], Frame::StartAllLink { mode: AllLinkMode::from(src[2]), group: src[3] })
        } else if cmd == CANCEL_ALL_LINK {
            if len < 3 {
                return (0, Ok(None));
            }
            close(3, src[2], Frame::CancelAllLink)
        } else if cmd == ALL_LINK_COMPLETE {
            if len < 10 {
                return (0, Ok(None));
            }
            let complete = AllLinkComplete {
                mode: AllLinkMode::from(src[2]),
                group: src[3],
                address: address_from(src, 4),
                category: src[7],
                sub_category: src[8],
                firmware_version: src[9],
            };
            (10, Ok(Some(Frame::AllLinkComplete(complete))))
        } else if cmd == GET_FIRST_ALL_LINK_RECORD {
            if len < 3 {
                return (0, Ok(None));
            }
            close(3, src[2], Frame::GetFirstAllLinkRecord)
        } else if cmd == GET_NEXT_ALL_LINK_RECORD {
            if len < 3 {
                return (0, Ok(None));
            }
            close(3, src[2], Frame::GetNextAllLinkRecord)
        } else if cmd == ALL_LINK_RECORD {
            if len < 10 {
                return (0, Ok(None));
            }
            let data = [src[7], src[8], src[9]];
            assert(data =~= link_data_at(src@, 7));
            let record = AllLinkRecord {
                flags: AllLinkFlags::from_bits_truncate(src[2]),
                group: src[3],
                to: address_from(src, 4),
                data,
            };
            (10, Ok(Some(Frame::AllLinkRecord(record))))
        } else if cmd == RESET {
            if len < 3 {
                return (0, Ok(None));
            }
            close(3, src[2], Frame::Reset)
        } else if cmd == ALL_LINK_SEND {
            if len < 6 {
                return (0, Ok(None));
            }
            close(6, src[5], Frame::AllLinkCommand { group: src[2], cmd1: src[3], cmd2: src[4] })
        } else {
            (0, Err(Error::Parse))
        }
    }

    /// Reads one frame from the start of `src`, as `from_bytes` does from a
    /// buffer that holds these bytes.
    pub fn from_slice(src: &[u8]) -> (r: Result<Option<Frame>, Error>)
        ensures
            decode_spec(src@).yields(r),
    {
        let len = src.len();
        let mut bytes = new_buffer();
        assert(contents(bytes).len() + len <= usize::MAX);
        extend_from_slice(&mut bytes, src);
        assert(contents(bytes) =~= src@);
        Self::from_bytes(&mut bytes)
    }

    /// Reads one frame from the start of the buffer and takes its bytes out
    /// of the buffer. Where more bytes are needed, or no frame starts like
    /// this, the buffer is left as it is. A frame that was not acknowledged
    /// is an error, and its bytes are taken all the same.
    pub fn from_bytes(src: &mut BytesMut) -> (r: Result<Option<Frame>, Error>)
        ensures
            decode_spec(contents(*old(src))).yields(r),
            contents(*final(src)) == contents(*old(src)).skip(
                decode_spec(contents(*old(src))).consumed() as int,
            ),
    {
        let (consumed, r) = Self::decode(buffer_bytes(src));
        advance(src, consumed);
        r
    }
    /// Whether the buffer has room for one more frame, whichever it is.
    pub fn has_room(bytes: &BytesMut) -> (r: bool)
        ensures
            r == (contents(*bytes).len() + LONGEST_ENCODING <= usize::MAX),
    {
        buffer_len(bytes) <= usize::MAX - LONGEST_ENCODING
    }

    /// Appends the bytes of the frame to the buffer. Only a frame that a host
    /// sends can be written, and the buffer has to have room for it.
    pub fn to_bytes(&self, bytes: &mut BytesMut)
        requires
            self.sendable(),
            contents(*old(bytes)).len() + self.encoding().len() <= usize::MAX,
        ensures
            contents(*final(bytes)) == contents(*old(bytes)) + self.encoding(),
    {
        let ghost before = contents(*bytes);
        put_u8(bytes, START);
        match self {
            Frame::GetModemInfo => {
                put_u8(bytes, GETIMINFO);
            },
            Frame::StandardInsteonSend { to, flags, max_hops, cmd1, cmd2 } => {
                put_u8(bytes, INSTEON_SEND);
                put_slice(bytes, to.0.as_slice());
                let hops = *max_hops & 0x03;
                put_u8(bytes, flags.bits() | (hops << 2) | hops);
                put_u8(bytes, *cmd1);
                put_u8(bytes, *cmd2);
            },
            Frame::ExtendedInsteonSend { to, flags, max_hops, cmd1, cmd2, data } => {
                put_u8(bytes, INSTEON_SEND);
                put_slice(bytes, to.0.as_slice());
                let hops = *max_hops & 0x03;
                put_u8(bytes, flags.bits() | (hops << 2) | hops);
                put_u8(bytes, *cmd1);
                put_u8(bytes, *cmd2);
                put_slice(bytes, slice_subrange(data.as_slice(), 0, 13));
                // The last data slot holds the checksum.
                put_u8(bytes, checksum_of(*cmd1, *cmd2, data));
            },
            Frame::StartAllLink { mode, group } => {
                put_u8(bytes, START_ALL_LINK);
                put_u8(bytes, mode.byte());
                put_u8(bytes, *group);
            },
            Frame::CancelAllLink => {
                put_u8(bytes, CANCEL_ALL_LINK);
            },
            Frame::GetFirstAllLinkRecord => {
                put_u8(bytes, GET_FIRST_ALL_LINK_RECORD);
            },
            Frame::GetNextAllLinkRecord => {
                put_u8(bytes, GET_NEXT_ALL_LINK_RECORD);
            },
            Frame::Reset => {
                put_u8(bytes, RESET);
            },
            Frame::AllLinkCommand { group, cmd1, cmd2 } => {
                put_u8(bytes, ALL_LINK_SEND);
                put_u8(bytes, *group);
                put_u8(bytes, *cmd1);
                put_u8(bytes, *cmd2);
            },
            _ => {},
        }
        assert(contents(*bytes) =~= before + self.encoding());
    }
}

/// The codec of a framed stream: frames out of the read buffer, frames into
/// the write buffer.
pub struct FrameCodec();

impl FrameCodec {
    /// Takes the next frame out of the read buffer, as `Frame::from_bytes`
    /// does.
    pub fn decode(&mut self, src: &mut BytesMut) -> (r: Result<Option<Frame>, Error>)
        ensures
            decode_spec(contents(*old(src))).yields(r),
            contents(*final(src)) == contents(*old(src)).skip(
                decode_spec(contents(*old(src))).consumed() as int,
            ),
    {
        Frame::from_bytes(src)
    }

    /// Appends a frame to the write buffer, as `Frame::to_bytes` does. It
    /// never fails.
    pub fn encode(&mut self, item: Frame, dst: &mut BytesMut) -> (r: Result<(), Error>)
        requires
            item.sendable(),
            contents(*old(dst)).len() + item.encoding().len() <= usize::MAX,
        ensures
            r is Ok,
            contents(*final(dst)) == contents(*old(dst)) + item.encoding(),
    {
        item.to_bytes(dst);
        Ok(())
    }
}

} // verus!
