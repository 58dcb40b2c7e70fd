use bytes::BytesMut;
use plm::constants::{ACK, CANCEL_ALL_LINK, GETIMINFO, NAK, START};
use plm::{
    Address, AllLinkComplete, AllLinkFlags, AllLinkMode, AllLinkRecord, Error, Frame,
    FrameCodec, MessageFlags, ModemInfo,
};

#[test]
fn no_command() {
    let buf = &[START][..];
    assert_eq!(Frame::from_slice(buf), Ok(None));
}

#[test]
fn no_terminator() {
    let buf = &[START, GETIMINFO][..];
    assert_eq!(Frame::from_slice(&buf), Ok(None));
}

#[test]
fn unknown_command() {
    let buf = &[START, 0x95u8][..];
    assert_eq!(Frame::from_slice(&buf), Err(Error::Parse));
}

#[test]
fn garbage() {
    let buf = &[0x1u8; 128][..];
    assert_eq!(Frame::from_slice(&buf), Err(Error::Parse));
}

#[test]
fn valid() {
    let buf = &[START, CANCEL_ALL_LINK, ACK][..];
    assert_eq!(Frame::from_slice(&buf), Ok(Some(Frame::CancelAllLink)));
}

#[test]
fn empty_buffer_is_incomplete() {
    assert_eq!(Frame::from_slice(&[]), Ok(None));
    assert_eq!(Frame::decode(&[]), (0, Ok(None)));
}

#[test]
fn cancel_all_link_byte_by_byte() {
    assert_eq!(Frame::from_slice(&[0x02]), Ok(None));
    assert_eq!(Frame::from_slice(&[0x02, 0x65]), Ok(None));
    assert_eq!(Frame::from_slice(&[0x02, 0x65, 0x06]), Ok(Some(Frame::CancelAllLink)));
}

#[test]
fn nak_consumes_the_frame() {
    let mut buffer = BytesMut::new();
    buffer.extend_from_slice(&[0x02, 0x65, 0x15]);
    assert_eq!(Frame::from_bytes(&mut buffer), Err(Error::NotAcknowledged));
    assert_eq!(buffer.len(), 0);
    assert_eq!(Frame::from_bytes(&mut buffer), Ok(None));
    assert_eq!(Frame::decode(&[0x02, 0x65, 0x15]), (3, Err(Error::NotAcknowledged)));
}

#[test]
fn nak_leaves_what_follows() {
    let mut buffer = BytesMut::new();
    buffer.extend_from_slice(&[0x02, 0x65, NAK, 0x02, 0x67, ACK, 0x02]);
    assert_eq!(Frame::from_bytes(&mut buffer), Err(Error::NotAcknowledged));
    assert_eq!(&buffer[..], &[0x02, 0x67, ACK, 0x02]);
    assert_eq!(Frame::from_bytes(&mut buffer), Ok(Some(Frame::Reset)));
    assert_eq!(&buffer[..], &[0x02]);
    assert_eq!(Frame::from_bytes(&mut buffer), Ok(None));
    assert_eq!(&buffer[..], &[0x02]);
}

#[test]
fn errors_leave_the_buffer() {
    let mut buffer = BytesMut::new();
    buffer.extend_from_slice(&[0x02, 0x95, 0x06]);
    assert_eq!(Frame::from_bytes(&mut buffer), Err(Error::Parse));
    assert_eq!(&buffer[..], &[0x02, 0x95, 0x06]);
}

#[test]
fn bad_trailing_byte_is_malformed() {
    assert_eq!(Frame::from_slice(&[0x02, 0x65, 0x07]), Err(Error::Parse));
    assert_eq!(Frame::decode(&[0x02, 0x65, 0x07]), (0, Err(Error::Parse)));
    assert_eq!(
        Frame::from_slice(&[0x02, 0x60, 1, 2, 3, 4, 5, 6, 0x00]),
        Err(Error::Parse)
    );
}

#[test]
fn stray_ack_is_skipped_up_to_the_start_byte() {
    let mut buffer = BytesMut::new();
    buffer.extend_from_slice(&[0x06, 0xaa, 0xbb, 0x02, 0x65, 0x06]);
    assert_eq!(
        Frame::from_bytes(&mut buffer),
        Ok(Some(Frame::Unknown { buf: vec![0xaa, 0xbb] }))
    );
    assert_eq!(&buffer[..], &[0x02, 0x65, 0x06]);
    assert_eq!(Frame::from_bytes(&mut buffer), Ok(Some(Frame::CancelAllLink)));
    assert_eq!(buffer.len(), 0);
}

#[test]
fn stray_ack_waits_for_a_start_byte() {
    assert_eq!(Frame::decode(&[0x06]), (0, Ok(None)));
    assert_eq!(Frame::decode(&[0x06, 0x01, 0x06, 0x15]), (0, Ok(None)));
    assert_eq!(Frame::decode(&[0x06, 0x02]), (1, Ok(Some(Frame::Unknown { buf: vec![] }))));
    assert_eq!(
        Frame::decode(&[0x06, 0x06, 0x02, 0x02]),
        (2, Ok(Some(Frame::Unknown { buf: vec![0x06] })))
    );
}

#[test]
fn decode_modem_info() {
    let bytes = [0x02, 0x60, 0x11, 0x22, 0x33, 0x03, 0x15, 0x9b, 0x06];
    let expected = Frame::ModemInfo(ModemInfo {
        address: Address([0x11, 0x22, 0x33]),
        category: 0x03,
        sub_category: 0x15,
        firmware_version: 0x9b,
    });
    assert_eq!(Frame::decode(&bytes), (9, Ok(Some(expected))));
    for k in 0..9 {
        assert_eq!(Frame::decode(&bytes[..k]), (0, Ok(None)), "prefix of {} bytes", k);
    }
}

#[test]
fn decode_standard_receive() {
    let bytes = [0x02, 0x50, 1, 2, 3, 4, 5, 6, 0x2b, 0x11, 0xff, 0x99];
    let expected = Frame::StandardInsteonReceive {
        from: Address([1, 2, 3]),
        to: Address([4, 5, 6]),
        flags: MessageFlags { bits: 0x20 },
        hops_remaining: 2,
        max_hops: 3,
        cmd1: 0x11,
        cmd2: 0xff,
    };
    assert_eq!(Frame::decode(&bytes), (11, Ok(Some(expected))));
    for k in 0..11 {
        assert_eq!(Frame::decode(&bytes[..k]), (0, Ok(None)), "prefix of {} bytes", k);
    }
}

#[test]
fn decode_extended_receive() {
    let mut bytes = vec![0x02, 0x51, 1, 2, 3, 4, 5, 6, 0x15, 0x2e, 0x00];
    bytes.extend_from_slice(&[1, 2, 3, 4, 5, 6, 7, 8, 9, 10, 11, 12, 13, 14]);
    let expected = Frame::ExtendedInsteonReceive {
        from: Address([1, 2, 3]),
        to: Address([4, 5, 6]),
        flags: MessageFlags { bits: 0x10 },
        hops_remaining: 1,
        max_hops: 1,
        cmd1: 0x2e,
        cmd2: 0x00,
        data: [1, 2, 3, 4, 5, 6, 7, 8, 9, 10, 11, 12, 13, 14],
    };
    assert_eq!(Frame::decode(&bytes), (25, Ok(Some(expected))));
    for k in 0..25 {
        assert_eq!(Frame::decode(&bytes[..k]), (0, Ok(None)), "prefix of {} bytes", k);
    }
}

#[test]
fn decode_send_echoes() {
    let standard = [0x02, 0x62, 1, 2, 3, 0x0f, 0x11, 0x80, 0x06];
    assert_eq!(
        Frame::decode(&standard),
        (
            9,
            Ok(Some(Frame::StandardInsteonSend {
                to: Address([1, 2, 3]),
                flags: MessageFlags { bits: 0 },
                max_hops: 3,
                cmd1: 0x11,
                cmd2: 0x80,
            }))
        )
    );
    let mut extended = vec![0x02, 0x62, 1, 2, 3, 0x1f, 0x09, 0x01];
    extended.extend_from_slice(&[0, 0, 0, 0, 0, 0, 0, 0, 0, 0, 0, 0, 0, 0xf6]);
    for k in 0..extended.len() + 1 {
        assert_eq!(Frame::decode(&extended[..k]), (0, Ok(None)), "prefix of {} bytes", k);
    }
    extended.push(0x06);
    assert_eq!(
        Frame::decode(&extended),
        (
            23,
            Ok(Some(Frame::ExtendedInsteonSend {
                to: Address([1, 2, 3]),
                flags: MessageFlags { bits: 0x10 },
                max_hops: 3,
                cmd1: 0x09,
                cmd2: 0x01,
                data: [0, 0, 0, 0, 0, 0, 0, 0, 0, 0, 0, 0, 0, 0xf6],
            }))
        )
    );
    extended[22] = 0x15;
    assert_eq!(Frame::decode(&extended), (23, Err(Error::NotAcknowledged)));
    extended[22] = 0x00;
    assert_eq!(Frame::decode(&extended), (0, Err(Error::Parse)));
}

#[test]
fn decode_link_frames() {
    assert_eq!(
        Frame::decode(&[0x02, 0x64, 0x01, 0x07, 0x06, 0x02]),
        (5, Ok(Some(Frame::StartAllLink { mode: AllLinkMode::Controller, group: 7 })))
    );
    assert_eq!(
        Frame::decode(&[0x02, 0x64, 0x55, 0x07, 0x06]),
        (5, Ok(Some(Frame::StartAllLink { mode: AllLinkMode::NoLink, group: 7 })))
    );
    assert_eq!(
        Frame::decode(&[0x02, 0x53, 0xff, 0x02, 9, 8, 7, 1, 2, 3]),
        (
            10,
            Ok(Some(Frame::AllLinkComplete(AllLinkComplete {
                mode: AllLinkMode::Delete,
                group: 2,
                address: Address([9, 8, 7]),
                category: 1,
                sub_category: 2,
                firmware_version: 3,
            })))
        )
    );
    assert_eq!(
        Frame::decode(&[0x02, 0x57, 0xff, 0x01, 9, 8, 7, 4, 5, 6]),
        (
            10,
            Ok(Some(Frame::AllLinkRecord(AllLinkRecord {
                flags: AllLinkFlags { bits: 0xc2 },
                group: 1,
                to: Address([9, 8, 7]),
                data: [4, 5, 6],
            })))
        )
    );
    assert_eq!(Frame::decode(&[0x02, 0x69, 0x06]), (3, Ok(Some(Frame::GetFirstAllLinkRecord))));
    assert_eq!(Frame::decode(&[0x02, 0x6a, 0x06]), (3, Ok(Some(Frame::GetNextAllLinkRecord))));
    assert_eq!(Frame::decode(&[0x02, 0x6a, 0x15]), (3, Err(Error::NotAcknowledged)));
    assert_eq!(Frame::decode(&[0x02, 0x67, 0x06]), (3, Ok(Some(Frame::Reset))));
    assert_eq!(
        Frame::decode(&[0x02, 0x61, 0x05, 0x11, 0x00, 0x06]),
        (6, Ok(Some(Frame::AllLinkCommand { group: 5, cmd1: 0x11, cmd2: 0 })))
    );
}

fn encoded(frame: &Frame) -> Vec<u8> {
    let mut buffer = BytesMut::new();
    frame.to_bytes(&mut buffer);
    buffer.to_vec()
}

#[test]
fn encode_short_frames() {
    assert_eq!(encoded(&Frame::GetModemInfo), vec![0x02, 0x60]);
    assert_eq!(encoded(&Frame::CancelAllLink), vec![0x02, 0x65]);
    assert_eq!(encoded(&Frame::GetFirstAllLinkRecord), vec![0x02, 0x69]);
    assert_eq!(encoded(&Frame::GetNextAllLinkRecord), vec![0x02, 0x6a]);
    assert_eq!(encoded(&Frame::Reset), vec![0x02, 0x67]);
    assert_eq!(
        encoded(&Frame::StartAllLink { mode: AllLinkMode::Responder, group: 9 }),
        vec![0x02, 0x64, 0x00, 0x09]
    );
    assert_eq!(
        encoded(&Frame::StartAllLink { mode: AllLinkMode::Auto, group: 1 }),
        vec![0x02, 0x64, 0x03, 0x01]
    );
    assert_eq!(
        encoded(&Frame::StartAllLink { mode: AllLinkMode::Delete, group: 1 }),
        vec![0x02, 0x64, 0xff, 0x01]
    );
    assert_eq!(
        encoded(&Frame::AllLinkCommand { group: 3, cmd1: 0x13, cmd2: 0x44 }),
        vec![0x02, 0x61, 0x03, 0x13, 0x44]
    );
}

#[test]
fn encode_appends_to_the_buffer() {
    let mut buffer = BytesMut::new();
    buffer.extend_from_slice(&[0xde, 0xad]);
    Frame::Reset.to_bytes(&mut buffer);
    Frame::CancelAllLink.to_bytes(&mut buffer);
    assert_eq!(&buffer[..], &[0xde, 0xad, 0x02, 0x67, 0x02, 0x65]);
}

#[test]
fn encode_standard_send() {
    let frame = Frame::StandardInsteonSend {
        to: Address([0x11, 0x22, 0x33]),
        flags: MessageFlags { bits: 0x40 },
        max_hops: 3,
        cmd1: 0x11,
        cmd2: 0xff,
    };
    assert_eq!(encoded(&frame), vec![0x02, 0x62, 0x11, 0x22, 0x33, 0x4f, 0x11, 0xff]);
    let frame = Frame::StandardInsteonSend {
        to: Address([0x11, 0x22, 0x33]),
        flags: MessageFlags { bits: 0 },
        max_hops: 0xfe,
        cmd1: 0x13,
        cmd2: 0x00,
    };
    assert_eq!(encoded(&frame), vec![0x02, 0x62, 0x11, 0x22, 0x33, 0x0a, 0x13, 0x00]);
}

#[test]
fn encode_extended_send_checksum() {
    let frame = Frame::ExtendedInsteonSend {
        to: Address([0x11, 0x22, 0x33]),
        flags: MessageFlags { bits: 0x10 },
        max_hops: 3,
        cmd1: 0x09,
        cmd2: 0x01,
        data: [0; 14],
    };
    let bytes = encoded(&frame);
    assert_eq!(bytes.len(), 22);
    assert_eq!(&bytes[..8], &[0x02, 0x62, 0x11, 0x22, 0x33, 0x1f, 0x09, 0x01]);
    assert_eq!(&bytes[8..21], &[0u8; 13]);
    assert_eq!(bytes[21], 0xf6);

    let data = [1u8, 2, 3, 4, 5, 6, 7, 8, 9, 10, 11, 12, 13, 0];
    let frame = Frame::ExtendedInsteonSend {
        to: Address([1, 2, 3]),
        flags: MessageFlags { bits: 0x10 },
        max_hops: 3,
        cmd1: 0x2e,
        cmd2: 0x00,
        data,
    };
    let bytes = encoded(&frame);
    let sum: u32 = 0x2e + data.iter().map(|b| *b as u32).sum::<u32>();
    assert_eq!(bytes[21] as u32, (!sum).wrapping_add(1) & 0xff);
    assert_eq!(bytes[21], 0x77);
    assert_eq!(&bytes[8..21], &data[..13]);
    let total: u32 = bytes[6..].iter().map(|b| *b as u32).sum();
    assert_eq!(total % 256, 0);
}

#[test]
fn encode_extended_send_checksum_edges() {
    let frame = Frame::ExtendedInsteonSend {
        to: Address([0, 0, 0]),
        flags: MessageFlags { bits: 0x10 },
        max_hops: 0,
        cmd1: 0,
        cmd2: 0,
        data: [0; 14],
    };
    assert_eq!(encoded(&frame)[21], 0);
    let frame = Frame::ExtendedInsteonSend {
        to: Address([0, 0, 0]),
        flags: MessageFlags { bits: 0x10 },
        max_hops: 0,
        cmd1: 0xff,
        cmd2: 0xff,
        data: [0xff; 14],
    };
    // 16 * 255 = 4080 = 0xff0, whose low byte is 0xf0.
    assert_eq!(encoded(&frame)[21], 0x10);
    // The slot itself counts as it was given.
    let mut data = [0u8; 14];
    data[13] = 5;
    let frame = Frame::ExtendedInsteonSend {
        to: Address([0, 0, 0]),
        flags: MessageFlags { bits: 0x10 },
        max_hops: 0,
        cmd1: 1,
        cmd2: 0,
        data,
    };
    assert_eq!(encoded(&frame)[21], 0xfa);
}

#[test]
fn echo_reads_back() {
    let frames = vec![
        Frame::CancelAllLink,
        Frame::Reset,
        Frame::GetFirstAllLinkRecord,
        Frame::GetNextAllLinkRecord,
        Frame::StartAllLink { mode: AllLinkMode::Controller, group: 200 },
        Frame::AllLinkCommand { group: 1, cmd1: 2, cmd2: 3 },
        Frame::StandardInsteonSend {
            to: Address([7, 8, 9]),
            flags: MessageFlags { bits: 0xa0 },
            max_hops: 2,
            cmd1: 0x19,
            cmd2: 0,
        },
    ];
    for frame in frames {
        let mut bytes = encoded(&frame);
        let len = bytes.len();
        bytes.push(ACK);
        assert_eq!(Frame::decode(&bytes), (len + 1, Ok(Some(frame))));
        bytes[len] = NAK;
        assert_eq!(Frame::decode(&bytes), (len + 1, Err(Error::NotAcknowledged)));
    }
}

#[test]
fn codec_decodes_and_encodes() {
    let mut codec = FrameCodec();
    let mut buffer = BytesMut::new();
    assert_eq!(codec.encode(Frame::GetModemInfo, &mut buffer), Ok(()));
    assert_eq!(&buffer[..], &[0x02, 0x60]);
    assert_eq!(codec.decode(&mut buffer), Ok(None));
    buffer.extend_from_slice(&[1, 2, 3, 4, 5, 6, 0x06, 0x02]);
    assert_eq!(
        codec.decode(&mut buffer),
        Ok(Some(Frame::ModemInfo(ModemInfo {
            address: Address([1, 2, 3]),
            category: 4,
            sub_category: 5,
            firmware_version: 6,
        })))
    );
    assert_eq!(&buffer[..], &[0x02]);
}

#[test]
fn responses() {
    let info = Frame::ModemInfo(ModemInfo {
        address: Address([1, 2, 3]),
        category: 4,
        sub_category: 5,
        firmware_version: 6,
    });
    assert!(Frame::GetModemInfo.is_response(&info));
    assert!(Frame::GetModemInfo.is_response(&Frame::GetModemInfo));
    assert!(!info.is_response(&Frame::GetModemInfo));
    assert!(info.is_response(&info));
    assert!(Frame::StartAllLink { mode: AllLinkMode::Auto, group: 1 }
        .is_response(&Frame::StartAllLink { mode: AllLinkMode::Delete, group: 9 }));
    assert!(!Frame::CancelAllLink.is_response(&Frame::Reset));
    assert!(!Frame::GetFirstAllLinkRecord.is_response(&Frame::GetNextAllLinkRecord));
    assert!(Frame::Unknown { buf: vec![1] }.is_response(&Frame::Unknown { buf: vec![] }));
    assert!(!Frame::CancelAllLink.is_response(&info));
}

#[test]
fn sendable_frames() {
    assert!(Frame::GetModemInfo.is_sendable());
    assert!(Frame::StartAllLink { mode: AllLinkMode::Auto, group: 1 }.is_sendable());
    assert!(!Frame::StartAllLink { mode: AllLinkMode::NoLink, group: 1 }.is_sendable());
    assert!(!Frame::Unknown { buf: vec![] }.is_sendable());
    assert!(!Frame::AllLinkComplete(AllLinkComplete {
        mode: AllLinkMode::Auto,
        group: 0,
        address: Address([0, 0, 0]),
        category: 0,
        sub_category: 0,
        firmware_version: 0,
    })
    .is_sendable());
}

#[test]
fn copies_fourteen_bytes() {
    let bytes = [9u8, 8, 7, 6, 5, 4, 3, 2, 1, 0, 1, 2, 3, 4];
    assert_eq!(plm::codec::clone_from_slice(&bytes[..]), bytes);
}

#[test]
fn buffers_have_room() {
    let mut buffer = BytesMut::new();
    assert!(Frame::has_room(&buffer));
    buffer.extend_from_slice(&[0u8; 1000]);
    assert!(Frame::has_room(&buffer));
    assert_eq!(plm::codec::LONGEST_ENCODING, 22);
}
