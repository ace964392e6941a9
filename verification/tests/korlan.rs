use canstack::korlan::{
    check_response, is_reset_ack, open_command, parse_rx_msg, take_message, tx_message, BitTiming,
    BusError, CanMessage, ChannelOptions, CmdMsg, Frame, Version, ABP_CLOCK, CMD_END,
    CMD_GET_SOFTW_HARDW_VER, CMD_MSG_LEN, CMD_OPEN, CMD_RESET, CMD_START, DATA_END, DATA_START,
    FLAG_ERR, FLAG_EXTID, FLAG_RTR, RX_MSG_LEN, STATUS_ACK, STATUS_BIT0, STATUS_BIT1,
    STATUS_BUSHEAVY, STATUS_BUSLIGHT, STATUS_BUSOFF, STATUS_CRC, STATUS_FORM, STATUS_OK,
    STATUS_OVERRUN, STATUS_STUFF, TX_MSG_LEN, TYPE_CAN_FRAME, TYPE_ERROR_FRAME,
};

#[test]
fn msg_sizes() {
    assert_eq!(CMD_MSG_LEN, 16);
    assert_eq!(TX_MSG_LEN, 16);
    assert_eq!(RX_MSG_LEN, 21);
}

#[test]
fn cmd_msg_roundtrip() {
    let msg = CmdMsg::new(CMD_GET_SOFTW_HARDW_VER);
    let bytes = msg.to_bytes();
    assert_eq!(bytes[0], CMD_START);
    assert_eq!(bytes[CMD_MSG_LEN - 1], CMD_END);
    assert_eq!(bytes.len(), CMD_MSG_LEN);

    let back = CmdMsg::from_bytes(&bytes).unwrap();
    assert_eq!(back.begin, CMD_START);
    assert_eq!(back.command, CMD_GET_SOFTW_HARDW_VER);
    assert_eq!(back.end, CMD_END);
}

fn bitrate_error(bitrate: u32) -> i32 {
    let bt = BitTiming::from_bitrate(bitrate);
    let tq = 1 + bt.tseg1 as u32 + bt.tseg2 as u32;
    let actual = ABP_CLOCK / (bt.brp as u32 * tq);
    actual as i32 - bitrate as i32
}

#[test]
fn lib_bittiming_500k() {
    assert!(bitrate_error(500_000).abs() < 5_000);
}

#[test]
fn lib_bittiming_250k() {
    assert!(bitrate_error(250_000).abs() < 2_500);
}

#[test]
fn lib_bittiming_125k() {
    assert!(bitrate_error(125_000).abs() < 1_250);
}

#[test]
fn bittiming_1m() {
    assert!(bitrate_error(1_000_000).abs() < 10_000);
}

fn make_rx_buf() -> [u8; RX_MSG_LEN] {
    [0u8; RX_MSG_LEN]
}

#[test]
fn parse_std_can_frame() {
    let mut b = make_rx_buf();
    b[0] = DATA_START;
    b[1] = TYPE_CAN_FRAME;
    b[2] = 0;
    b[3] = 0x00;
    b[4] = 0x00;
    b[5] = 0x01;
    b[6] = 0x23;
    b[7] = 4;
    b[8..12].copy_from_slice(&[0xDE, 0xAD, 0xBE, 0xEF]);
    b[RX_MSG_LEN - 1] = DATA_END;

    let msg = parse_rx_msg(&b).unwrap();
    match msg {
        CanMessage::Frame(f) => {
            assert_eq!(f.id, 0x123);
            assert!(!f.ext);
            assert!(!f.rtr);
            assert_eq!(f.dlc, 4);
            assert_eq!(&f.data[..4], &[0xDE, 0xAD, 0xBE, 0xEF]);
        }
        _ => panic!("expected Frame, got {msg:?}"),
    }
}

#[test]
fn parse_ext_can_frame() {
    let mut b = make_rx_buf();
    b[0] = DATA_START;
    b[1] = TYPE_CAN_FRAME;
    b[2] = FLAG_EXTID;
    let id: [u8; 4] = 0x1234_5678u32.to_be_bytes();
    b[3..7].copy_from_slice(&id);
    b[7] = 8;
    b[8..16].copy_from_slice(&[1, 2, 3, 4, 5, 6, 7, 8]);
    b[RX_MSG_LEN - 1] = DATA_END;

    let msg = parse_rx_msg(&b).unwrap();
    match msg {
        CanMessage::Frame(f) => {
            assert_eq!(f.id, 0x1234_5678);
            assert!(f.ext);
            assert_eq!(f.dlc, 8);
        }
        _ => panic!("expected Frame"),
    }
}

#[test]
fn parse_rtr_frame() {
    let mut b = make_rx_buf();
    b[0] = DATA_START;
    b[1] = TYPE_CAN_FRAME;
    b[2] = FLAG_RTR;
    b[3..7].copy_from_slice(&0x42u32.to_be_bytes());
    b[7] = 0;
    b[RX_MSG_LEN - 1] = DATA_END;

    match parse_rx_msg(&b).unwrap() {
        CanMessage::Frame(f) => assert!(f.rtr),
        _ => panic!("expected Frame"),
    }
}

#[test]
fn parse_error_busoff() {
    let mut b = make_rx_buf();
    b[0] = DATA_START;
    b[1] = TYPE_ERROR_FRAME;
    b[2] = FLAG_ERR;
    b[8] = STATUS_BUSOFF;
    b[RX_MSG_LEN - 1] = DATA_END;

    assert!(matches!(
        parse_rx_msg(&b),
        Some(CanMessage::Error(BusError::BusOff))
    ));
}

#[test]
fn parse_error_buslight() {
    let mut b = make_rx_buf();
    b[0] = DATA_START;
    b[1] = TYPE_ERROR_FRAME;
    b[2] = FLAG_ERR;
    b[8] = STATUS_BUSLIGHT;
    b[9] = 0x10;
    b[10] = 0x20;
    b[RX_MSG_LEN - 1] = DATA_END;

    assert!(matches!(
        parse_rx_msg(&b),
        Some(CanMessage::Error(BusError::BusLight {
            tx_err: 0x20,
            rx_err: 0x10
        }))
    ));
}

#[test]
fn parse_error_variants() {
    let cases: &[(u8, BusError)] = &[
        (STATUS_OK, BusError::NoError),
        (STATUS_OVERRUN, BusError::Overrun),
        (
            STATUS_BUSHEAVY,
            BusError::BusHeavy {
                tx_err: 0,
                rx_err: 0,
            },
        ),
        (STATUS_STUFF, BusError::Stuff),
        (STATUS_FORM, BusError::Form),
        (STATUS_ACK, BusError::Ack),
        (STATUS_BIT0, BusError::Bit0),
        (STATUS_BIT1, BusError::Bit1),
        (STATUS_CRC, BusError::Crc),
        (0xFF, BusError::Unknown(0xFF)),
    ];
    for (status, expected) in cases {
        let mut b = make_rx_buf();
        b[1] = TYPE_ERROR_FRAME;
        b[2] = FLAG_ERR;
        b[8] = *status;
        let got = parse_rx_msg(&b).unwrap();
        match (got, expected) {
            (CanMessage::Error(BusError::NoError), BusError::NoError) => {}
            (CanMessage::Error(BusError::Overrun), BusError::Overrun) => {}
            (CanMessage::Error(BusError::BusHeavy { .. }), BusError::BusHeavy { .. }) => {}
            (CanMessage::Error(BusError::Stuff), BusError::Stuff) => {}
            (CanMessage::Error(BusError::Form), BusError::Form) => {}
            (CanMessage::Error(BusError::Ack), BusError::Ack) => {}
            (CanMessage::Error(BusError::Bit0), BusError::Bit0) => {}
            (CanMessage::Error(BusError::Bit1), BusError::Bit1) => {}
            (CanMessage::Error(BusError::Crc), BusError::Crc) => {}
            (CanMessage::Error(BusError::Unknown(v)), BusError::Unknown(e)) => {
                assert_eq!(v, *e)
            }
            (got, exp) => panic!("status {status:#x}: got {got:?}, expected {exp:?}"),
        }
    }
}

#[test]
fn parse_too_short_returns_none() {
    let b = [0u8; RX_MSG_LEN - 1];
    assert!(parse_rx_msg(&b).is_none());
}

#[test]
fn bus_error_counter_masks_passive_bit() {
    let mut b = make_rx_buf();
    b[1] = TYPE_ERROR_FRAME;
    b[2] = FLAG_ERR;
    b[8] = STATUS_BUSHEAVY;
    b[9] = 0x85;
    b[10] = 0x90;
    assert!(matches!(
        parse_rx_msg(&b),
        Some(CanMessage::Error(BusError::BusHeavy { tx_err: 0x90, rx_err: 0x05 }))
    ));
}

#[test]
fn cmd_msg_bytes_roundtrip_keeps_data() {
    let mut msg = CmdMsg::new(CMD_OPEN);
    msg.data = [1, 2, 3, 4, 5, 6, 7, 8, 9, 10];
    msg.opt2 = 7;
    let bytes = msg.to_bytes();
    let back = CmdMsg::from_bytes(&bytes).unwrap();
    assert_eq!(back.to_bytes(), bytes);
    assert!(CmdMsg::from_bytes(&bytes[..15]).is_none());
}

#[test]
fn open_command_layout() {
    let bt = BitTiming { tseg1: 13, tseg2: 2, sjw: 1, brp: 0x0104 };
    let opts = ChannelOptions { loopback: true, listen_only: false, no_auto_retransmit: true };
    let msg = open_command(&bt, &opts);
    let bytes = msg.to_bytes();
    assert_eq!(
        bytes,
        [CMD_START, 0, CMD_OPEN, 0x09, 0, 13, 2, 1, 0x01, 0x04, 0, 0, 0, 0x0E, 0, CMD_END]
    );
}

#[test]
fn response_checks() {
    let ok = CmdMsg::new(CMD_GET_SOFTW_HARDW_VER).to_bytes();
    assert!(check_response(&ok).is_some());
    let mut failed = ok;
    failed[3] = 1;
    assert!(check_response(&failed).is_none());
    assert!(check_response(&ok[..10]).is_none());
    let mut versions = CmdMsg::new(CMD_GET_SOFTW_HARDW_VER);
    versions.data[..4].copy_from_slice(&[1, 2, 3, 4]);
    let v = Version::from_response(&versions);
    assert_eq!((v.fw_major, v.fw_minor, v.hw_major, v.hw_minor), (1, 2, 3, 4));

    let ack = CmdMsg::new(CMD_RESET).to_bytes();
    assert!(is_reset_ack(&ack));
    assert!(!is_reset_ack(&ok));
    assert!(!is_reset_ack(&ack[..15]));
}

#[test]
fn korlan_tx_message_layout() {
    let f = Frame { id: 0xFFFF_FFFF, data: [1, 2, 3, 4, 5, 6, 7, 8], dlc: 12, ext: true, rtr: true };
    let bytes = tx_message(&f).to_bytes();
    assert_eq!(
        bytes,
        [DATA_START, 0x03, 0x1F, 0xFF, 0xFF, 0xFF, 8, 1, 2, 3, 4, 5, 6, 7, 8, DATA_END]
    );
}

#[test]
fn take_message_skips_unknown_records() {
    let mut unknown = make_rx_buf();
    unknown[1] = 7;
    let mut err = make_rx_buf();
    err[1] = TYPE_ERROR_FRAME;
    err[2] = FLAG_ERR;
    err[8] = STATUS_CRC;
    let mut buf: Vec<u8> = Vec::new();
    buf.extend_from_slice(&unknown);
    buf.extend_from_slice(&err);
    buf.extend_from_slice(&[1, 2, 3]);
    let m = take_message(&mut buf);
    assert!(matches!(m, Some(CanMessage::Error(BusError::Crc))));
    assert_eq!(buf, vec![1, 2, 3]);
    assert!(take_message(&mut buf).is_none());
    assert_eq!(buf, vec![1, 2, 3]);
}

#[test]
fn equal_errors_prefer_more_time_quanta() {
    // 2_000_000 (16 quanta) and 1_882_352 (17 quanta) are equally far off.
    let bt = BitTiming::from_bitrate(1_941_176);
    assert_eq!(bt.brp, 1);
    assert_eq!(1 + bt.tseg1 as u32 + bt.tseg2 as u32, 17);
    assert_eq!((bt.tseg1, bt.tseg2, bt.sjw), (8, 8, 4));
}
