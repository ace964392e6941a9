use canstack::can_id::{ExtendedId, Id, StandardId};
use canstack::pcan::{
    cmd_filter_std, cmd_opcode, cmd_timing_fast, cmd_timing_slow, command_packet, decode_one,
    encode_tx_msg, fd_dlc_to_len, fd_frame_tx_message, fd_len_to_dlc,
    filter_batch, frame_tx_message, open_channel_commands, parse_firmware_info, BitTiming,
    CanMessage, ChannelOptions, ClockMode, DataBitTiming, FdFrame, Frame, OpCode,
    PCAN_UFD_MSG_CALIBRATION, PUCAN_BUS_BUSOFF, PUCAN_BUS_WARNING, PUCAN_MSG_BITRATE_SWITCH,
    PUCAN_MSG_CAN_RX, PUCAN_MSG_EXT_DATA_LEN, PUCAN_MSG_EXT_ID, PUCAN_MSG_RTR, PUCAN_MSG_STATUS,
    RX_HDR, RX_OFF_CAN_ID, RX_OFF_CHANNEL_DLC, RX_OFF_DATA, RX_OFF_FLAGS, ST_OFF_CHANNEL_P_W_B,
};

fn std_id(raw: u16) -> Id {
    Id::Standard(StandardId::new(raw).unwrap())
}

fn ext_id(raw: u32) -> Id {
    Id::Extended(ExtendedId::new(raw).unwrap())
}

#[test]
fn frame_std() {
    let f = Frame::new(std_id(0x123), &[1, 2, 3]).unwrap();
    assert!(!f.is_extended());
    assert_eq!(f.dlc(), 3);
    assert_eq!(f.data(), &[1, 2, 3]);
}

#[test]
fn frame_ext() {
    let f = Frame::new(ext_id(0x1234_ABCD), &[0xDE]).unwrap();
    assert!(f.is_extended());
    assert_eq!(f.dlc(), 1);
}

#[test]
fn frame_rtr() {
    let f = Frame::new_remote(std_id(0x42), 4).unwrap();
    assert!(f.is_remote_frame());
    assert_eq!(f.data(), &[] as &[u8]);
}

#[test]
fn frame_too_long() {
    assert!(Frame::new(std_id(0), &[0u8; 9]).is_none());
}

#[test]
fn fd_frame_64() {
    let data = [0xABu8; 64];
    let f = FdFrame::new(std_id(0x1), &data).unwrap();
    assert_eq!(f.len, 64);
    assert_eq!(&f.data[..], &data[..]);
}

#[test]
fn fd_frame_too_long() {
    assert!(FdFrame::new(std_id(0), &[0u8; 65]).is_none());
}

#[test]
fn fd_dlc_all_lengths() {
    let cases = [
        (0, 0),
        (1, 1),
        (2, 2),
        (8, 8),
        (9, 12),
        (10, 16),
        (11, 20),
        (12, 24),
        (13, 32),
        (14, 48),
        (15, 64),
    ];
    for (dlc, expected_len) in cases {
        assert_eq!(fd_dlc_to_len(dlc), expected_len, "dlc={dlc}");
    }
}

#[test]
fn fd_dlc_roundtrip() {
    for &len in &[0usize, 1, 4, 8, 12, 16, 20, 24, 32, 48, 64] {
        assert_eq!(fd_dlc_to_len(fd_len_to_dlc(len)), len);
    }
}

fn nominal_bitrate(bt: &BitTiming) -> u32 {
    let tq = 1u32 + bt.tseg1 as u32 + bt.tseg2 as u32;
    ClockMode::default().as_hz() / (bt.brp as u32 * tq)
}

fn data_bitrate(dbt: &DataBitTiming) -> u32 {
    let tq = 1u32 + dbt.tseg1 as u32 + dbt.tseg2 as u32;
    ClockMode::default().as_hz() / (dbt.brp as u32 * tq)
}

#[test]
fn bittiming_1mbit() {
    let bt = BitTiming::from_bitrate(1_000_000);
    assert_eq!(nominal_bitrate(&bt), 1_000_000);
}

#[test]
fn bittiming_500k() {
    let bt = BitTiming::from_bitrate(500_000);
    assert_eq!(nominal_bitrate(&bt), 500_000);
}

#[test]
fn bittiming_250k() {
    let bt = BitTiming::from_bitrate(250_000);
    assert_eq!(nominal_bitrate(&bt), 250_000);
}

#[test]
fn bittiming_125k() {
    let bt = BitTiming::from_bitrate(125_000);
    assert_eq!(nominal_bitrate(&bt), 125_000);
}

#[test]
fn bittiming_50k() {
    let bt = BitTiming::from_bitrate(50_000);
    assert_eq!(nominal_bitrate(&bt), 50_000);
}

#[test]
fn bittiming_20k() {
    let bt = BitTiming::from_bitrate(20_000);
    assert_eq!(nominal_bitrate(&bt), 20_000);
}

#[test]
fn bittiming_10k() {
    let bt = BitTiming::from_bitrate(10_000);
    assert_eq!(nominal_bitrate(&bt), 10_000);
}

#[test]
fn data_bittiming_2mbit() {
    let dbt = DataBitTiming::from_bitrate(2_000_000);
    assert_eq!(data_bitrate(&dbt), 2_000_000);
}

#[test]
fn data_bittiming_5mbit() {
    let dbt = DataBitTiming::from_bitrate(5_000_000);
    assert_eq!(data_bitrate(&dbt), 5_000_000);
}

#[test]
fn data_bittiming_8mbit() {
    let dbt = DataBitTiming::from_bitrate(8_000_000);
    assert_eq!(data_bitrate(&dbt), 8_000_000);
}

#[test]
fn cmd_timing_slow_500k() {
    let bt = BitTiming::from_bitrate(500_000);
    let cmd = cmd_timing_slow(&bt);
    let oc = u16::from_le_bytes([cmd[0], cmd[1]]);
    assert_eq!(oc & 0x3ff, OpCode::TimingSlow.code());
    let brp = u16::from_le_bytes([cmd[6], cmd[7]]) as u32 + 1;
    let tseg1 = cmd[5] as u32 + 1;
    let tseg2 = cmd[4] as u32 + 1;
    let actual = ClockMode::default().as_hz() / (brp * (1 + tseg1 + tseg2));
    assert_eq!(actual, 500_000);
}

#[test]
fn cmd_timing_fast_2mbit() {
    let dbt = DataBitTiming::from_bitrate(2_000_000);
    let cmd = cmd_timing_fast(&dbt);
    let oc = u16::from_le_bytes([cmd[0], cmd[1]]);
    assert_eq!(oc & 0x3ff, OpCode::TimingFast.code());
    let brp = u16::from_le_bytes([cmd[6], cmd[7]]) as u32 + 1;
    let tseg1 = cmd[5] as u32 + 1;
    let tseg2 = cmd[4] as u32 + 1;
    let actual = ClockMode::default().as_hz() / (brp * (1 + tseg1 + tseg2));
    assert_eq!(actual, 2_000_000);
}

#[test]
fn cmd_opcode_reset() {
    let c = cmd_opcode(OpCode::ResetMode);
    let oc = u16::from_le_bytes([c[0], c[1]]);
    assert_eq!(oc, OpCode::ResetMode.code());
}

/// Build a raw receive record for a classical CAN frame.
fn make_rx_pkt(ext: bool, rtr: bool, can_id: u32, dlc: u8, data: &[u8]) -> Vec<u8> {
    let data_len = if rtr { 0 } else { data.len() };
    let size = (RX_HDR + data_len + 3) & !3;
    let mut pkt = vec![0u8; size];
    pkt[0..2].copy_from_slice(&(size as u16).to_le_bytes());
    pkt[2..4].copy_from_slice(&PUCAN_MSG_CAN_RX.to_le_bytes());
    pkt[RX_OFF_CHANNEL_DLC] = dlc << 4;
    let mut flags: u16 = 0;
    if ext {
        flags |= PUCAN_MSG_EXT_ID;
    }
    if rtr {
        flags |= PUCAN_MSG_RTR;
    }
    pkt[RX_OFF_FLAGS..RX_OFF_FLAGS + 2].copy_from_slice(&flags.to_le_bytes());
    pkt[RX_OFF_CAN_ID..RX_OFF_CAN_ID + 4].copy_from_slice(&can_id.to_le_bytes());
    if !rtr && data_len > 0 {
        pkt[RX_OFF_DATA..RX_OFF_DATA + data_len].copy_from_slice(&data[..data_len]);
    }
    pkt
}

/// Build a raw receive record for a CAN-FD frame.
fn make_fd_rx_pkt(ext: bool, can_id: u32, data: &[u8], brs: bool) -> Vec<u8> {
    let data_len = data.len();
    let dlc = fd_len_to_dlc(data_len);
    let size = (RX_HDR + data_len + 3) & !3;
    let mut pkt = vec![0u8; size];
    pkt[0..2].copy_from_slice(&(size as u16).to_le_bytes());
    pkt[2..4].copy_from_slice(&PUCAN_MSG_CAN_RX.to_le_bytes());
    pkt[RX_OFF_CHANNEL_DLC] = dlc << 4;
    let mut flags: u16 = PUCAN_MSG_EXT_DATA_LEN;
    if ext {
        flags |= PUCAN_MSG_EXT_ID;
    }
    if brs {
        flags |= PUCAN_MSG_BITRATE_SWITCH;
    }
    pkt[RX_OFF_FLAGS..RX_OFF_FLAGS + 2].copy_from_slice(&flags.to_le_bytes());
    pkt[RX_OFF_CAN_ID..RX_OFF_CAN_ID + 4].copy_from_slice(&can_id.to_le_bytes());
    pkt[RX_OFF_DATA..RX_OFF_DATA + data_len].copy_from_slice(data);
    pkt
}

#[test]
fn decode_std_frame() {
    let mut buf = make_rx_pkt(false, false, 0x123, 4, &[0x11, 0x22, 0x33, 0x44]);
    let msg = decode_one(&mut buf).unwrap();
    match msg {
        CanMessage::Frame(f) => {
            assert_eq!(f.id, std_id(0x123));
            assert_eq!(f.dlc, 4);
            assert_eq!(&f.data[..4], &[0x11, 0x22, 0x33, 0x44]);
            assert!(!f.rtr);
        }
        _ => panic!("expected Frame, got {msg:?}"),
    }
}

#[test]
fn decode_ext_frame() {
    let mut buf = make_rx_pkt(true, false, 0x1234_5678, 8, &[1, 2, 3, 4, 5, 6, 7, 8]);
    let msg = decode_one(&mut buf).unwrap();
    match msg {
        CanMessage::Frame(f) => {
            assert!(f.is_extended());
            assert_eq!(f.id, ext_id(0x1234_5678));
            assert_eq!(f.dlc, 8);
        }
        _ => panic!("expected Frame"),
    }
}

#[test]
fn decode_rtr_frame() {
    let mut buf = make_rx_pkt(false, true, 0x42, 4, &[]);
    match decode_one(&mut buf).unwrap() {
        CanMessage::Frame(f) => {
            assert!(f.rtr);
            assert_eq!(f.dlc, 4);
        }
        _ => panic!("expected Frame"),
    }
}

#[test]
fn decode_fd_frame() {
    let data = (0u8..12).collect::<Vec<_>>();
    let mut buf = make_fd_rx_pkt(true, 0xABCD_EF01, &data, true);
    match decode_one(&mut buf).unwrap() {
        CanMessage::FdFrame(f) => {
            assert!(matches!(f.id, Id::Extended(_)));
            assert_eq!(f.len, 12);
            assert_eq!(&f.data[..12], &data[..]);
            assert!(f.brs);
        }
        _ => panic!("expected FdFrame"),
    }
}

#[test]
fn decode_fd_frame_64() {
    let data = [0xCCu8; 64];
    let mut buf = make_fd_rx_pkt(false, 0x100, &data, false);
    match decode_one(&mut buf).unwrap() {
        CanMessage::FdFrame(f) => {
            assert_eq!(f.len, 64);
            assert_eq!(&f.data[..], &data[..]);
        }
        _ => panic!("expected FdFrame"),
    }
}

#[test]
fn decode_status_busoff() {
    let mut buf = vec![0u8; 20];
    buf[0..2].copy_from_slice(&20u16.to_le_bytes());
    buf[2..4].copy_from_slice(&PUCAN_MSG_STATUS.to_le_bytes());
    buf[ST_OFF_CHANNEL_P_W_B] = PUCAN_BUS_BUSOFF;
    match decode_one(&mut buf).unwrap() {
        CanMessage::Status(s) => assert!(s.bus_off),
        _ => panic!("expected Status"),
    }
}

#[test]
fn decode_status_warning() {
    let mut buf = vec![0u8; 20];
    buf[0..2].copy_from_slice(&20u16.to_le_bytes());
    buf[2..4].copy_from_slice(&PUCAN_MSG_STATUS.to_le_bytes());
    buf[ST_OFF_CHANNEL_P_W_B] = PUCAN_BUS_WARNING;
    match decode_one(&mut buf).unwrap() {
        CanMessage::Status(s) => {
            assert!(s.bus_warning);
            assert!(!s.bus_off);
        }
        _ => panic!("expected Status"),
    }
}

#[test]
fn decode_calibration_skipped() {
    let mut buf = Vec::new();
    let mut cal = vec![0u8; 16];
    cal[0..2].copy_from_slice(&16u16.to_le_bytes());
    cal[2..4].copy_from_slice(&PCAN_UFD_MSG_CALIBRATION.to_le_bytes());
    buf.extend_from_slice(&cal);
    buf.extend_from_slice(&make_rx_pkt(false, false, 0x1, 1, &[0xAB]));

    let msg = decode_one(&mut buf).unwrap();
    assert!(matches!(msg, CanMessage::Frame(_)));
}

#[test]
fn decode_null_size_terminates() {
    let mut buf = vec![0u8; 8];
    assert!(decode_one(&mut buf).is_none());
    assert!(buf.is_empty());
}

#[test]
fn decode_returns_none_short_buf() {
    let mut buf = vec![0u8; 3];
    assert!(decode_one(&mut buf).is_none());
}

#[test]
fn decode_consumes_bytes() {
    let mut buf = make_rx_pkt(false, false, 0x1, 1, &[0xFF]);
    let initial = buf.len();
    decode_one(&mut buf);
    assert!(buf.len() < initial);
}

#[test]
fn cmd_filter_std_encoding() {
    let c = cmd_filter_std(7, 0xDEAD_BEEF);
    let oc = u16::from_le_bytes([c[0], c[1]]);
    assert_eq!(oc & 0x3ff, OpCode::FilterStandard.code());
    let idx = u16::from_le_bytes([c[2], c[3]]);
    assert_eq!(idx, 7);
    let mask = u32::from_le_bytes([c[4], c[5], c[6], c[7]]);
    assert_eq!(mask, 0xDEAD_BEEF);
}

#[test]
fn decode_incomplete_record_is_kept() {
    let pkt = make_rx_pkt(false, false, 0x7, 2, &[1, 2]);
    let mut buf = pkt[..pkt.len() - 1].to_vec();
    assert!(decode_one(&mut buf).is_none());
    assert_eq!(buf, pkt[..pkt.len() - 1].to_vec());
}

#[test]
fn decode_two_frames_in_order() {
    let mut buf = make_rx_pkt(false, false, 0x10, 1, &[0xA1]);
    buf.extend_from_slice(&make_rx_pkt(true, false, 0x20, 1, &[0xB2]));
    match decode_one(&mut buf).unwrap() {
        CanMessage::Frame(f) => assert_eq!(f.id, std_id(0x10)),
        _ => panic!("expected Frame"),
    }
    match decode_one(&mut buf).unwrap() {
        CanMessage::Frame(f) => assert_eq!(f.id, ext_id(0x20)),
        _ => panic!("expected Frame"),
    }
    assert!(buf.is_empty());
}

#[test]
fn decode_masks_standard_id() {
    let mut buf = make_rx_pkt(false, false, 0xFFFF_F123, 0, &[]);
    match decode_one(&mut buf).unwrap() {
        CanMessage::Frame(f) => assert_eq!(f.id, std_id(0x123)),
        _ => panic!("expected Frame"),
    }
}

#[test]
fn classic_length_codes_above_eight_read_as_eight() {
    let data = [1, 2, 3, 4, 5, 6, 7, 8, 9, 10, 11, 12];
    let mut pkt = make_rx_pkt(false, false, 0x1, 12, &data);
    assert_eq!(pkt.len(), 40);
    match decode_one(&mut pkt).unwrap() {
        CanMessage::Frame(f) => {
            assert_eq!(f.dlc, 8);
            assert_eq!(f.data, [1, 2, 3, 4, 5, 6, 7, 8]);
            assert!(!f.rtr);
        }
        _ => panic!("expected Frame"),
    }
    assert!(pkt.is_empty());

    let mut rtr = make_rx_pkt(false, true, 0x2, 12, &[]);
    match decode_one(&mut rtr).unwrap() {
        CanMessage::Frame(f) => {
            assert_eq!(f.dlc, 8);
            assert!(f.rtr);
            assert_eq!(f.data, [0; 8]);
        }
        _ => panic!("expected Frame"),
    }
}

#[test]
fn classic_record_shorter_than_its_code_is_skipped() {
    let mut pkt = make_rx_pkt(false, false, 0x1, 8, &[0; 8]);
    pkt[RX_OFF_CHANNEL_DLC] = 9 << 4;
    assert_eq!(pkt.len(), 36);
    assert!(decode_one(&mut pkt).is_none());
    assert!(pkt.is_empty());
}

#[test]
fn tx_message_layout() {
    let f = Frame::new(std_id(0x123), &[1, 2, 3]).unwrap();
    let msg = frame_tx_message(&f);
    // 20 header bytes + 3 data bytes rounded up to 24, plus a 4-byte terminator
    assert_eq!(msg.len(), 28);
    assert_eq!(u16::from_le_bytes([msg[0], msg[1]]), 24);
    assert_eq!(u16::from_le_bytes([msg[2], msg[3]]), 0x1000);
    assert_eq!(msg[12], 3 << 4);
    assert_eq!(u16::from_le_bytes([msg[14], msg[15]]), 0);
    assert_eq!(u32::from_le_bytes([msg[16], msg[17], msg[18], msg[19]]), 0x123);
    assert_eq!(&msg[20..23], &[1, 2, 3]);
    assert_eq!(&msg[23..], &[0, 0, 0, 0, 0]);
}

#[test]
fn tx_message_remote_extended() {
    let f = Frame::new_remote(ext_id(0x1ABC_DEF0), 5).unwrap();
    let msg = frame_tx_message(&f);
    assert_eq!(msg.len(), 24);
    assert_eq!(msg[12], 5 << 4);
    assert_eq!(u16::from_le_bytes([msg[14], msg[15]]), PUCAN_MSG_EXT_ID | PUCAN_MSG_RTR);
    assert_eq!(u32::from_le_bytes([msg[16], msg[17], msg[18], msg[19]]), 0x1ABC_DEF0);
}

#[test]
fn tx_fd_message_layout() {
    let f = FdFrame::new_brs(std_id(0x55), &[7u8; 10]).unwrap();
    let msg = fd_frame_tx_message(&f);
    assert_eq!(msg.len(), 32 + 4);
    assert_eq!(msg[12], 9 << 4);
    assert_eq!(
        u16::from_le_bytes([msg[14], msg[15]]),
        PUCAN_MSG_EXT_DATA_LEN | PUCAN_MSG_BITRATE_SWITCH
    );
    assert_eq!(&msg[20..30], &[7u8; 10]);
}

#[test]
fn tx_encode_pads_to_four_bytes() {
    let msg = encode_tx_msg(1, 0, 1, &[0xAA]);
    assert_eq!(msg.len(), 24 + 4);
    assert_eq!(msg[20], 0xAA);
}

#[test]
fn command_packet_appends_end_marker() {
    let c = cmd_opcode(OpCode::NormalMode);
    let pkt = command_packet(&[c]);
    assert_eq!(pkt.len(), 16);
    assert_eq!(&pkt[..8], &c);
    assert_eq!(&pkt[8..], &[0xFF; 8]);
}

#[test]
fn filter_batches_cover_all_rows() {
    for batch in 0..8u16 {
        let cmds = filter_batch(batch);
        assert_eq!(cmds.len(), 8);
        for (j, c) in cmds.iter().enumerate() {
            assert_eq!(*c, cmd_filter_std(batch * 8 + j as u16, 0xFFFF_FFFF));
        }
    }
}

#[test]
fn open_channel_listen_only() {
    let bt = BitTiming::from_bitrate(500_000);
    let cmds = open_channel_commands(&bt, &ChannelOptions { listen_only: true, one_shot: false });
    assert_eq!(cmds.len(), 4);
    assert_eq!(cmds[2], cmd_timing_slow(&bt));
    assert_eq!(cmds[3], cmd_opcode(OpCode::ListenOnlyMode));
    assert_eq!(&cmds[1][2..6], &[0x00, 0xC0, 0, 0]);
}

#[test]
fn firmware_info_endpoints() {
    let mut raw = vec![0u8; 36];
    raw[2] = 2; // extended kind
    raw[20..24].copy_from_slice(&0xCAFE_F00Du32.to_le_bytes());
    raw[28] = 0x03;
    raw[29] = 0x83;
    raw[30] = 0x04;
    raw[32] = 0x84;
    let (info, eps) = parse_firmware_info(&raw).unwrap();
    assert_eq!(info.serial_number, 0xCAFE_F00D);
    assert_eq!((eps.cmd_out, eps.cmd_in, eps.data_out, eps.data_in), (0x03, 0x83, 0x04, 0x84));

    raw[2] = 1;
    let (_, eps) = parse_firmware_info(&raw[..28]).unwrap();
    assert_eq!((eps.cmd_out, eps.data_out, eps.data_in), (0x01, 0x02, 0x82));

    raw[2] = 2;
    assert!(parse_firmware_info(&raw[..30]).is_none());
}
