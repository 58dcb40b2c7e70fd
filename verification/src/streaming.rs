//! How the decoder behaves on a stream that arrives piece by piece, and how
//! it reads back what the encoder wrote.

use crate::address::Address;
use crate::codec::{
    address_at, checksum, data_at, decode_spec, decode_structured, find_start, flags_byte,
    hops_remaining_of, is_terminator, lemma_find_start, link_data_at, max_hops_of, sum_bytes,
    Decoded,
};
use crate::constants::{ACK, INSTEON_SEND, START};
use crate::flags::MessageFlags;
use crate::frame::Frame;
use vstd::prelude::*;

verus! {

/// The first start byte of a prefix is the first start byte of the whole.
proof fn lemma_find_start_in_prefix(b: Seq<u8>, k: int, from: int)
    requires
        0 <= from,
        0 <= k <= b.len(),
    ensures
        find_start(b.take(k), from) is Some ==> find_start(b, from) == find_start(
            b.take(k),
            from,
        ),
        find_start(b.take(k), from) is None && find_start(b, from) is Some ==> find_start(
            b,
            from,
        )->0 >= k,
    decreases b.len() - from,
{
    if from < b.len() {
        if from < k {
            assert(b.take(k)[from] == b[from]);
            if b[from] != START {
                lemma_find_start_in_prefix(b, k, from + 1);
            }
        } else {
            lemma_find_start(b, from);
        }
    }
}

/// The addresses and data blocks that lie within the first `n` bytes are the
/// same in a prefix of at least `n` bytes and in the whole.
proof fn lemma_fields_in_prefix(b: Seq<u8>, k: int, n: int)
    requires
        0 <= n <= k <= b.len(),
    ensures
        n >= 5 ==> address_at(b.take(k), 2) == address_at(b, 2),
        n >= 10 ==> address_at(b.take(k), 4) == address_at(b, 4),
        n >= 10 ==> address_at(b.take(k), 5) == address_at(b, 5),
        n >= 10 ==> link_data_at(b.take(k), 7) == link_data_at(b, 7),
        n >= 23 ==> data_at(b.take(k), 8) == data_at(b, 8),
        n >= 25 ==> data_at(b.take(k), 11) == data_at(b, 11),
{
    let p = b.take(k);
    assert(forall|i: int| 0 <= i < k ==> p[i] == b[i]);
    if n >= 5 {
        assert(address_at(p, 2).0 =~= address_at(b, 2).0);
    }
    if n >= 10 {
        assert(address_at(p, 4).0 =~= address_at(b, 4).0);
        assert(address_at(p, 5).0 =~= address_at(b, 5).0);
        assert(link_data_at(p, 7) =~= link_data_at(b, 7));
    }
    if n >= 23 {
        assert(data_at(p, 8) =~= data_at(b, 8));
    }
    if n >= 25 {
        assert(data_at(p, 11) =~= data_at(b, 11));
    }
}

/// A decision is final. Once the grammar has read a frame from the first `k`
/// bytes, or has found that no frame starts like them, more bytes do not
/// change the reading.
pub proof fn lemma_decision_is_final(b: Seq<u8>, k: int)
    requires
        0 <= k <= b.len(),
        !(decode_spec(b.take(k)) is Incomplete),
    ensures
        decode_spec(b) == decode_spec(b.take(k)),
{
    let p = b.take(k);
    assert(k >= 1);
    assert(p[0] == b[0]);
    if b[0] == ACK {
        lemma_find_start_in_prefix(b, k, 1);
        lemma_find_start(p, 1);
        let n = find_start(p, 1)->0;
        assert(p.subrange(1, n) =~= b.subrange(1, n));
    } else if b[0] == START {
        assert(k >= 2);
        assert(p[1] == b[1]);
        lemma_structured_reads_its_bytes(b, k);
    }
}

/// The reading of a structured frame depends on the bytes of the frame alone.
proof fn lemma_structured_reads_its_bytes(b: Seq<u8>, k: int)
    requires
        2 <= k <= b.len(),
        !(decode_structured(b.take(k)) is Incomplete),
    ensures
        decode_structured(b) == decode_structured(b.take(k)),
{
    let p = b.take(k);
    assert(forall|i: int| 0 <= i < k ==> p[i] == b[i]);
    match decode_structured(p) {
        Decoded::Structured { consumed, .. } => {
            assert(consumed <= k);
            lemma_fields_in_prefix(b, k, consumed as int);
        },
        _ => {},
    }
}

/// Until the last byte of a frame has arrived, the grammar asks for more: no
/// proper prefix of a frame is read as a frame or as an error. After a stray
/// acknowledgement byte, this holds up to the byte before the start byte.
pub proof fn lemma_prefix_is_incomplete(b: Seq<u8>, k: int)
    requires
        0 <= k,
        k < decode_spec(b).consumed() || (decode_spec(b) is Resync && k
            == decode_spec(b).consumed()),
    ensures
        decode_spec(b.take(k)) is Incomplete,
{
    let p = b.take(k);
    if k >= 1 {
        if b[0] == ACK {
            lemma_find_start(b, 1);
            lemma_find_start_in_prefix(b, k, 1);
            lemma_find_start(p, 1);
        } else if k >= 2 {
            assert(p[0] == b[0]);
            assert(p[1] == b[1]);
            if b[1] == INSTEON_SEND && k >= 9 {
                assert(p[8] == b[8]);
            }
        }
    }
}

/// When the last byte of a frame has arrived, the frame is read, whatever
/// follows it in the stream.
pub proof fn lemma_frame_is_read_at_its_end(b: Seq<u8>)
    requires
        decode_spec(b) is Structured,
    ensures
        decode_spec(b.take(decode_spec(b).consumed() as int)) == decode_spec(b),
{
    let n = decode_spec(b).consumed() as int;
    let p = b.take(n);
    assert(forall|i: int| 0 <= i < n ==> p[i] == b[i]);
    lemma_fields_in_prefix(b, n, n);
}

/// The sum of a sequence of bytes is the sum of its parts.
pub proof fn lemma_sum_bytes_concat(a: Seq<u8>, b: Seq<u8>)
    ensures
        sum_bytes(a + b) == sum_bytes(a) + sum_bytes(b),
    decreases b.len(),
{
    if b.len() == 0 {
        assert(a + b =~= a);
    } else {
        lemma_sum_bytes_concat(a, b.drop_last());
        assert((a + b).drop_last() =~= a + b.drop_last());
    }
}

/// A sum of bytes is at most 255 for each of them.
pub proof fn lemma_sum_bytes_bound(s: Seq<u8>)
    ensures
        sum_bytes(s) <= 255 * s.len(),
    decreases s.len(),
{
    if s.len() > 0 {
        lemma_sum_bytes_bound(s.drop_last());
    }
}

/// The checksum is what negating the 32-bit sum of both command bytes and of
/// the fourteen data bytes, adding one and keeping the low eight bits gives.
/// That sum never reaches 2^32.
pub proof fn lemma_checksum_is_twos_complement(cmd1: u8, cmd2: u8, data: Seq<u8>)
    requires
        data.len() == 14,
    ensures
        cmd1 + cmd2 + sum_bytes(data) <= 4080,
        checksum(cmd1, cmd2, data) == ((((!((cmd1 + cmd2 + sum_bytes(data)) as u32)) as u64
            + 1) as u64) & 0xff) as u8,
{
    lemma_sum_bytes_bound(data);
    let sum = (cmd1 + cmd2 + sum_bytes(data)) as u32;
    let c = checksum(cmd1, cmd2, data);
    assert(c == ((256 - sum % 256) % 256) as u8);
    assert(((256 - sum % 256) % 256) as u8 == ((((!sum) as u64 + 1) as u64) & 0xff) as u8)
        by (bit_vector);
}

/// An extended send is written in 22 bytes: its first thirteen data bytes as
/// they are, and the checksum in the place of the fourteenth.
pub proof fn lemma_extended_send_carries_checksum(
    to: Address,
    flags: MessageFlags,
    max_hops: u8,
    cmd1: u8,
    cmd2: u8,
    data: [u8; 14],
)
    ensures
        ({
            let e = (Frame::ExtendedInsteonSend { to, flags, max_hops, cmd1, cmd2, data })
                .encoding();
            &&& e.len() == 22
            &&& e[6] == cmd1
            &&& e[7] == cmd2
            &&& e.subrange(8, 21) == data@.take(13)
            &&& e[21] == checksum(cmd1, cmd2, data@)
        }),
{
    let e = (Frame::ExtendedInsteonSend { to, flags, max_hops, cmd1, cmd2, data }).encoding();
    assert(e.subrange(8, 21) =~= data@.take(13));
}

/// Where the last data slot is 0 to begin with, the bytes that are written
/// from the first command byte through the checksum add up to a multiple of
/// 256: that is how a receiver checks them.
pub proof fn lemma_checksum_balances(
    to: Address,
    flags: MessageFlags,
    max_hops: u8,
    cmd1: u8,
    cmd2: u8,
    data: [u8; 14],
)
    requires
        data[13] == 0,
    ensures
        sum_bytes(
            (Frame::ExtendedInsteonSend { to, flags, max_hops, cmd1, cmd2, data }).encoding()
                .subrange(6, 22),
        ) % 256 == 0,
{
    let e = (Frame::ExtendedInsteonSend { to, flags, max_hops, cmd1, cmd2, data }).encoding();
    let c = checksum(cmd1, cmd2, data@);
    let head = seq![cmd1, cmd2];
    let body = data@.take(13);
    assert(e.subrange(6, 22) =~= head + body + seq![c]);
    lemma_sum_bytes_concat(head + body, seq![c]);
    lemma_sum_bytes_concat(head, body);
    assert(sum_bytes(seq![c]) == c) by {
        reveal_with_fuel(sum_bytes, 2);
        assert(seq![c].drop_last().len() == 0);
    }
    assert(sum_bytes(head) == cmd1 + cmd2) by {
        reveal_with_fuel(sum_bytes, 3);
        assert(head.drop_last() =~= seq![cmd1]);
        assert(seq![cmd1].drop_last().len() == 0);
    }
    assert(sum_bytes(data@) == sum_bytes(body)) by {
        assert(data@.drop_last() =~= body);
    }
}

impl Frame {
    /// The frame as the modem echoes it: an extended send with the checksum
    /// in its last data slot, any other frame as it is.
    pub open spec fn as_written(self) -> Frame {
        match self {
            Frame::ExtendedInsteonSend { to, flags, max_hops, cmd1, cmd2, data } => {
                Frame::ExtendedInsteonSend {
                    to,
                    flags,
                    max_hops,
                    cmd1,
                    cmd2,
                    data: [
                        data[0],
                        data[1],
                        data[2],
                        data[3],
                        data[4],
                        data[5],
                        data[6],
                        data[7],
                        data[8],
                        data[9],
                        data[10],
                        data[11],
                        data[12],
                        checksum(cmd1, cmd2, data@),
                    ],
                }
            },
            _ => self,
        }
    }

    /// Whether the frame comes back from its own bytes as it went in: its
    /// flags hold flag bits only and its hop count fits two bits. An extended
    /// send is told from a standard one by its first data byte, which
    /// therefore is no trailing byte.
    pub open spec fn echoes_exactly(self) -> bool {
        match self {
            Frame::GetModemInfo => false,
            Frame::StandardInsteonSend { flags, max_hops, .. } => flags.wf() && max_hops <= 3,
            Frame::ExtendedInsteonSend { flags, max_hops, data, .. } => flags.wf() && max_hops <= 3
                && !is_terminator(data[0]),
            _ => self.sendable(),
        }
    }
}

/// The hop counts that are read from a flags byte fit two bits each.
pub proof fn lemma_hops_fit_two_bits(flags: u8)
    ensures
        hops_remaining_of(flags) <= 3,
        max_hops_of(flags) <= 3,
{
    assert((flags & 0x0cu8) >> 2u8 <= 3 && flags & 0x03u8 <= 3) by (bit_vector);
}

/// The flags byte that is sent holds the flags in its high four bits, and
/// below them the hop count, cut to two bits, once as hops left and once as
/// hops allowed.
pub proof fn lemma_flags_byte_fields(flags: MessageFlags, max_hops: u8)
    requires
        flags.wf(),
    ensures
        MessageFlags::truncate(flags_byte(flags, max_hops)) == flags,
        hops_remaining_of(flags_byte(flags, max_hops)) == max_hops & 0x03u8,
        max_hops_of(flags_byte(flags, max_hops)) == max_hops & 0x03u8,
        max_hops <= 3 ==> max_hops & 0x03u8 == max_hops,
{
    let f = flags.bits;
    let m = max_hops;
    assert(f & 0x0fu8 == 0 ==> {
        let byte = f | ((m & 0x03u8) << 2u8) | (m & 0x03u8);
        &&& byte & 0xf0u8 == f
        &&& (byte & 0x0cu8) >> 2u8 == m & 0x03u8
        &&& byte & 0x03u8 == m & 0x03u8
    }) by (bit_vector);
    assert(m <= 3 ==> m & 0x03u8 == m) by (bit_vector);
}

/// Decoding mirrors encoding. The bytes of a frame, followed by the byte
/// with which the modem acknowledges or refuses them, are read as that
/// frame, that byte and nothing left over.
pub proof fn lemma_echo_is_read_back(frame: Frame, ack: u8)
    requires
        frame.echoes_exactly(),
        is_terminator(ack),
    ensures
        decode_spec(frame.encoding().push(ack)) == (Decoded::Structured {
            consumed: frame.encoding().len() + 1,
            ack,
            frame: frame.as_written(),
        }),
{
    let e = frame.encoding().push(ack);
    match frame {
        Frame::StandardInsteonSend { to, flags, max_hops, cmd1, cmd2 } => {
            lemma_flags_byte_fields(flags, max_hops);
            assert(e.len() == 9);
            assert(address_at(e, 2).0 =~= to.0);
        },
        Frame::ExtendedInsteonSend { to, flags, max_hops, cmd1, cmd2, data } => {
            lemma_flags_byte_fields(flags, max_hops);
            assert(e.len() == 23);
            assert(e[8] == data[0]);
            assert(address_at(e, 2).0 =~= to.0);
            assert(data_at(e, 8) =~= frame.as_written()->ExtendedInsteonSend_data);
        },
        Frame::StartAllLink { mode, group } => {
            assert(e.len() == 5);
        },
        Frame::AllLinkCommand { .. } => {
            assert(e.len() == 6);
        },
        _ => {
            assert(e.len() == 3);
        },
    }
}

/// Frames in a row are read one by one: what follows a frame in the buffer
/// does not change how the frame is read.
pub proof fn lemma_frame_is_read_before_the_rest(frame: Frame, ack: u8, rest: Seq<u8>)
    requires
        frame.echoes_exactly(),
        is_terminator(ack),
    ensures
        decode_spec(frame.encoding().push(ack) + rest) == (Decoded::Structured {
            consumed: frame.encoding().len() + 1,
            ack,
            frame: frame.as_written(),
        }),
        (frame.encoding().push(ack) + rest).skip(frame.encoding().len() as int + 1) == rest,
{
    let one = frame.encoding().push(ack);
    let all = one + rest;
    lemma_echo_is_read_back(frame, ack);
    assert(all.take(one.len() as int) =~= one);
    lemma_decision_is_final(all, one.len() as int);
    assert(all.skip(one.len() as int) =~= rest);
}

/// Skipping a stray acknowledgement byte puts the buffer back on a frame
/// boundary: what is left begins with a start byte.
pub proof fn lemma_resync_leaves_a_start_byte(b: Seq<u8>)
    requires
        decode_spec(b) is Resync,
    ensures
        decode_spec(b).consumed() < b.len(),
        b.skip(decode_spec(b).consumed() as int)[0] == START,
        !decode_spec(b)->Resync_garbage.contains(START),
{
    lemma_find_start(b, 1);
    let n = find_start(b, 1)->0;
    let garbage = b.subrange(1, n);
    if garbage.contains(START) {
        let i = choose|i: int| 0 <= i < garbage.len() && garbage[i] == START;
        assert(b[i + 1] == START);
    }
}

} // verus!
