use plm::{Address, AllLinkFlags, AllLinkMode, Command, Error, Frame, Message, MessageFlags};
use std::convert::TryFrom;

#[test]
fn command_round_trip_for_every_byte() {
    for b in 0u8..=255 {
        assert_eq!(u8::from(Command::from(b)), b);
    }
}

#[test]
fn command_names() {
    assert_eq!(Command::from(0x11), Command::On);
    assert_eq!(Command::from(0x12), Command::OnFast);
    assert_eq!(Command::from(0x13), Command::Off);
    assert_eq!(Command::from(0x14), Command::OffFast);
    assert_eq!(Command::from(0x0f), Command::Ping);
    assert_eq!(Command::from(0x0d), Command::VersionQuery);
    assert_eq!(Command::from(0x08), Command::CancelLinking);
    assert_eq!(Command::from(0x09), Command::StartLinking);
    assert_eq!(Command::from(0x19), Command::StatusRequest);
    assert_eq!(Command::from(0x30), Command::Beep);
    assert_eq!(Command::from(0x00), Command::Unset);
    assert_eq!(u8::from(Command::On), 0x11);
    assert_eq!(u8::from(Command::Beep), 0x30);
    assert_eq!(u8::from(Command::Unset), 0);
    assert_eq!(Command::default(), Command::Unset);
}

#[test]
fn command_escape_keeps_the_byte() {
    let named = [0x08u8, 0x09, 0x0d, 0x0f, 0x19, 0x11, 0x12, 0x13, 0x14, 0x30, 0x00];
    for b in 0u8..=255 {
        if !named.contains(&b) {
            assert_eq!(Command::from(b), Command::Other(b));
        } else {
            assert_ne!(Command::from(b), Command::Other(b));
        }
    }
    assert_eq!(u8::from(Command::Other(0x11)), 0x11);
    assert_eq!(u8::from(Command::Other(0xfe)), 0xfe);
}

#[test]
fn link_mode_bytes() {
    assert_eq!(AllLinkMode::from(0x00), AllLinkMode::Responder);
    assert_eq!(AllLinkMode::from(0x01), AllLinkMode::Controller);
    assert_eq!(AllLinkMode::from(0x03), AllLinkMode::Auto);
    assert_eq!(AllLinkMode::from(0xff), AllLinkMode::Delete);
    assert_eq!(AllLinkMode::from(0x02), AllLinkMode::NoLink);
    assert_eq!(AllLinkMode::from(0x80), AllLinkMode::NoLink);
    assert_eq!(AllLinkMode::Responder.byte(), 0x00);
    assert_eq!(AllLinkMode::Controller.byte(), 0x01);
    assert_eq!(AllLinkMode::Auto.byte(), 0x03);
    assert_eq!(AllLinkMode::Delete.byte(), 0xff);
}

#[test]
fn message_flags() {
    assert_eq!(MessageFlags::from_bits_truncate(0xff).bits(), 0xf0);
    assert_eq!(MessageFlags::from_bits_truncate(0x2b).bits(), 0x20);
    assert_eq!(MessageFlags::from_bits_truncate(0x0f), MessageFlags::empty());
    assert_eq!(MessageFlags::from_bits(0x30), Some(MessageFlags { bits: 0x30 }));
    assert_eq!(MessageFlags::from_bits(0x31), None);
    assert_eq!(MessageFlags::default().bits(), 0);
    let flags = MessageFlags::empty().with(MessageFlags::ACK).with(MessageFlags::EXTENDED);
    assert_eq!(flags.bits(), 0x30);
    assert!(flags.contains(MessageFlags::ACK));
    assert!(flags.contains(MessageFlags::EXTENDED));
    assert!(flags.contains(MessageFlags::ACK | MessageFlags::EXTENDED));
    assert!(flags.contains(MessageFlags::NONE));
    assert!(!flags.contains(MessageFlags::GROUP));
    assert!(!flags.contains(MessageFlags::BROADCAST_OR_NAK | MessageFlags::ACK));
    assert_eq!(MessageFlags::empty().with(0x0f).bits(), 0);
    assert_eq!(MessageFlags::ALL, 0xf0);
    assert_eq!(MessageFlags::BROADCAST_OR_NAK, 0x80);
    assert_eq!(MessageFlags::GROUP, 0x40);
}

#[test]
fn link_flags() {
    assert_eq!(AllLinkFlags::from_bits_truncate(0xff).bits(), 0xc2);
    assert_eq!(AllLinkFlags::from_bits_truncate(0x3d), AllLinkFlags::empty());
    let flags = AllLinkFlags::from_bits_truncate(0xe2);
    assert!(flags.contains(AllLinkFlags::IN_USE));
    assert!(flags.contains(AllLinkFlags::IS_CONTROLLER));
    assert!(flags.contains(AllLinkFlags::HAS_BEEN_USED));
    assert!(!AllLinkFlags::from_bits_truncate(0x82).contains(AllLinkFlags::IS_CONTROLLER));
    assert_eq!(AllLinkFlags::ALL, 0xc2);
    assert_eq!(AllLinkFlags::NONE, 0);
}

#[test]
fn message_defaults() {
    let message = Message::default();
    assert_eq!(message.from, Address([0, 0, 0]));
    assert_eq!(message.to, Address([0, 0, 0]));
    assert_eq!(message.flags, MessageFlags::empty());
    assert_eq!(message.hops_remaining, 3);
    assert_eq!(message.max_hops, 3);
    assert_eq!(message.cmd1, Command::Unset);
    assert_eq!(message.cmd2, Command::Unset);
    assert_eq!(message.data, [0u8; 14]);
}

#[test]
fn message_constructors() {
    let to = Address([1, 2, 3]);
    let extended = MessageFlags { bits: MessageFlags::EXTENDED };
    let a = Message::from((to, Command::On));
    assert_eq!(a, Message { to, cmd1: Command::On, ..Message::default() });
    let b = Message::from((to, Command::On, Command::Other(0x80)));
    assert_eq!(b, Message { to, cmd1: Command::On, cmd2: Command::Other(0x80), ..Message::default() });
    let c = Message::from((to, Command::Ping, extended));
    assert_eq!(c, Message { to, cmd1: Command::Ping, flags: extended, ..Message::default() });
    let d: Message = (to, Command::StartLinking, Command::Other(1), extended).into();
    assert_eq!(
        d,
        Message {
            to,
            cmd1: Command::StartLinking,
            cmd2: Command::Other(1),
            flags: extended,
            ..Message::default()
        }
    );
}

#[test]
fn message_from_received_frames() {
    let standard = Frame::StandardInsteonReceive {
        from: Address([1, 2, 3]),
        to: Address([4, 5, 6]),
        flags: MessageFlags { bits: 0x20 },
        hops_remaining: 1,
        max_hops: 2,
        cmd1: 0x11,
        cmd2: 0x7f,
    };
    assert_eq!(
        Message::try_from(standard),
        Ok(Message {
            from: Address([1, 2, 3]),
            to: Address([4, 5, 6]),
            flags: MessageFlags { bits: 0x20 },
            hops_remaining: 1,
            max_hops: 2,
            cmd1: Command::On,
            cmd2: Command::Other(0x7f),
            data: [0; 14],
        })
    );
    let data = [1u8, 2, 3, 4, 5, 6, 7, 8, 9, 10, 11, 12, 13, 14];
    let extended = Frame::ExtendedInsteonReceive {
        from: Address([1, 2, 3]),
        to: Address([4, 5, 6]),
        flags: MessageFlags { bits: 0x10 },
        hops_remaining: 0,
        max_hops: 3,
        cmd1: 0x00,
        cmd2: 0x30,
        data,
    };
    assert_eq!(
        Message::try_from(extended),
        Ok(Message {
            from: Address([1, 2, 3]),
            to: Address([4, 5, 6]),
            flags: MessageFlags { bits: 0x10 },
            hops_remaining: 0,
            max_hops: 3,
            cmd1: Command::Unset,
            cmd2: Command::Beep,
            data,
        })
    );
}

#[test]
fn message_from_other_frames() {
    let others = vec![
        Frame::GetModemInfo,
        Frame::CancelAllLink,
        Frame::Reset,
        Frame::Unknown { buf: vec![1, 2] },
        Frame::StandardInsteonSend {
            to: Address([1, 2, 3]),
            flags: MessageFlags::empty(),
            max_hops: 3,
            cmd1: 1,
            cmd2: 2,
        },
    ];
    for frame in others {
        assert_eq!(Message::try_from(frame), Err(Error::UnexpectedResponse));
    }
}

#[test]
fn acknowledgements() {
    let sent = Message::from((Address([1, 2, 3]), Command::On));
    let ack = Message {
        from: Address([1, 2, 3]),
        to: Address([9, 9, 9]),
        flags: MessageFlags { bits: 0x20 },
        cmd1: Command::Off,
        ..Message::default()
    };
    assert!(sent.is_ack(&ack));
    assert!(sent.is_ack(&Message { flags: MessageFlags { bits: 0xf0 }, ..ack }));
    assert!(!sent.is_ack(&Message { flags: MessageFlags { bits: 0xd0 }, ..ack }));
    assert!(!sent.is_ack(&Message { from: Address([1, 2, 4]), ..ack }));
    assert!(!sent.is_ack(&sent));
}

#[test]
fn message_to_frame() {
    let to = Address([1, 2, 3]);
    let standard = Message::from((to, Command::On, Command::Other(0xff)));
    assert_eq!(
        standard.to_frame(),
        Frame::StandardInsteonSend {
            to,
            flags: MessageFlags::empty(),
            max_hops: 3,
            cmd1: 0x11,
            cmd2: 0xff,
        }
    );
    let mut extended = Message::from((
        to,
        Command::StartLinking,
        Command::Other(1),
        MessageFlags { bits: MessageFlags::EXTENDED | MessageFlags::GROUP },
    ));
    extended.data[0] = 7;
    let mut data = [0u8; 14];
    data[0] = 7;
    assert_eq!(
        extended.to_frame(),
        Frame::ExtendedInsteonSend {
            to,
            flags: MessageFlags { bits: 0x50 },
            max_hops: 3,
            cmd1: 0x09,
            cmd2: 0x01,
            data,
        }
    );
}

#[test]
fn command_text() {
    assert_eq!(Command::On.to_string(), "On");
    assert_eq!(Command::OnFast.to_string(), "OnFast");
    assert_eq!(Command::Off.to_string(), "Off");
    assert_eq!(Command::OffFast.to_string(), "OffFast");
    assert_eq!(Command::Ping.to_string(), "Ping");
    assert_eq!(Command::VersionQuery.to_string(), "VersionQuery");
    assert_eq!(Command::CancelLinking.to_string(), "CancelLinking");
    assert_eq!(Command::StartLinking.to_string(), "StartLinking");
    assert_eq!(Command::StatusRequest.to_string(), "StatusRequest");
    assert_eq!(Command::Beep.to_string(), "Beep");
    assert_eq!(Command::Unset.to_string(), "None");
    assert_eq!(Command::Other(0).to_string(), "Other(0)");
    assert_eq!(Command::Other(7).to_string(), "Other(7)");
    assert_eq!(Command::Other(42).to_string(), "Other(42)");
    assert_eq!(Command::Other(100).to_string(), "Other(100)");
    assert_eq!(Command::Other(109).to_string(), "Other(109)");
    assert_eq!(Command::Other(255).to_string(), "Other(255)");
}

#[test]
fn link_mode_text() {
    assert_eq!(AllLinkMode::Responder.to_string(), "Responder");
    assert_eq!(AllLinkMode::Controller.to_string(), "Controller");
    assert_eq!(AllLinkMode::Auto.to_string(), "Auto");
    assert_eq!(AllLinkMode::Delete.to_string(), "Delete");
    assert_eq!(AllLinkMode::NoLink.to_string(), "None");
}
