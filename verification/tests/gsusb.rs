use canstack::can_id::{ExtendedId, Id, StandardId};
use canstack::gsusb::{
    is_supported, reset_mode, start_mode, state_from_response, timing_computable,
    timing_from_bitrate, CanBitTimingConst, CanState, ChannelOptions, ControlRequest,
    DeviceBitTiming, DeviceBitTimingConst, DeviceMode, DeviceState, Features, Frame,
    ProtocolErrorKind,
};

#[test]
fn test_timing_from_bitrate() {
    let target = 500_000;
    let timing_const = CanBitTimingConst {
        tseg1_min: 1,
        tseg1_max: 255,
        tseg2_min: 1,
        tseg2_max: 127,
        sjw_max: 127,
        brp_min: 1,
        brp_max: 511,
        brp_inc: 1,
    };
    let timing = timing_from_bitrate(target, &timing_const, 8_000_000);
    assert_eq!(timing.phase_seg1, 1);
    assert_eq!(timing.phase_seg2, 14);
    assert_eq!(timing.prop_seg, 1);
    assert_eq!(timing.sjw, 4);
    assert_eq!(timing.brp, 1);
}

fn limits(brp_min: u32, brp_max: u32) -> CanBitTimingConst {
    CanBitTimingConst {
        tseg1_min: 1,
        tseg1_max: 16,
        tseg2_min: 1,
        tseg2_max: 8,
        sjw_max: 4,
        brp_min,
        brp_max,
        brp_inc: 1,
    }
}

#[test]
fn timing_without_candidates_is_default() {
    let t = timing_from_bitrate(500_000, &limits(5, 4), 48_000_000);
    assert_eq!(t, DeviceBitTiming { prop_seg: 1, phase_seg1: 13, phase_seg2: 2, sjw: 1, brp: 4 });
    assert!(!timing_computable(&limits(0, 4)));
    assert!(timing_computable(&limits(1, 4)));
}

#[test]
fn timing_exact_rate_at_48mhz() {
    let t = timing_from_bitrate(1_000_000, &limits(1, 1024), 48_000_000);
    let tq = 1 + t.phase_seg1 + t.phase_seg2;
    assert_eq!(48_000_000 / (t.brp * tq), 1_000_000);
    assert_eq!(t.brp, 2);
    assert_eq!((t.phase_seg1, t.phase_seg2, t.sjw), (15, 8, 4));
}

#[test]
fn supported_devices() {
    assert!(is_supported(0x1d50, 0x606f));
    assert!(is_supported(0x16d0, 0x0f30));
    assert!(!is_supported(0x1d50, 0x16d0));
}

#[test]
fn start_mode_sets_option_flags() {
    let m = start_mode(&ChannelOptions { one_shot: true, loopback: true, ..Default::default() });
    assert_eq!(m.mode, DeviceMode::MODE_START);
    assert_eq!(m.flags, Features(0b1010));
    assert_eq!(m.to_bytes(), vec![1, 0, 0, 0, 0x0a, 0, 0, 0]);
    let m = start_mode(&ChannelOptions { fd: true, listen_only: true, ..Default::default() });
    assert_eq!(m.flags, Features(0x101));
    let r = reset_mode();
    assert_eq!(r.to_bytes(), vec![0; 8]);
}

#[test]
fn control_request_numbers() {
    assert_eq!(u8::from(ControlRequest::Mode), 2);
    assert_eq!(u8::from(ControlRequest::GetState), 14);
}

#[test]
fn state_answers() {
    let bytes = [3, 0, 0, 0, 9, 0, 0, 0, 0x10, 1, 0, 0];
    let st = state_from_response(&bytes).unwrap();
    assert_eq!(st.state, CanState::BusOff);
    assert_eq!(st.rx_errors, 9);
    assert_eq!(st.tx_errors, 0x110);
    assert_eq!(state_from_response(&bytes[..11]).unwrap_err(), ProtocolErrorKind::ResponseSize);
    let bad = [6, 0, 0, 0, 0, 0, 0, 0, 0, 0, 0, 0];
    assert_eq!(state_from_response(&bad).unwrap_err(), ProtocolErrorKind::EnumValue);
    assert_eq!(DeviceState { state: 5, rx_errors: 0, tx_errors: 0 }.state(), Some(CanState::Sleeping));
}

#[test]
fn bit_timing_const_bytes_roundtrip() {
    let c = DeviceBitTimingConst { features: Features(0x300), fclk_can: 48_000_000, timing: limits(1, 1024) };
    let bytes = c.to_bytes();
    assert_eq!(bytes.len(), 40);
    assert_eq!(&bytes[4..8], &48_000_000u32.to_le_bytes());
    assert_eq!(DeviceBitTimingConst::from_bytes(&bytes), Some(c));
    assert_eq!(DeviceBitTimingConst::from_bytes(&bytes[..39]), None);
}

#[test]
fn frame_bytes_roundtrip() {
    let id = Id::Extended(ExtendedId::new(0x1234_5678).unwrap());
    let f = Frame::new(id, &[9, 8, 7]).unwrap();
    assert_eq!(f.id(), id);
    assert!(f.is_extended());
    assert_eq!(f.data(), &[9, 8, 7]);
    let bytes = f.to_bytes();
    assert_eq!(bytes.len(), 80);
    assert_eq!(&bytes[4..8], &0x9234_5678u32.to_le_bytes());
    let back = Frame::from_bytes(&bytes);
    assert_eq!(back.to_bytes(), bytes);
    assert_eq!(back.id(), id);

    let short = Frame::from_bytes(&bytes[..12]);
    assert_eq!(short.dlc(), 3);
    assert_eq!(short.data(), &[0, 0, 0]);
}

#[test]
fn classic_transfer_is_24_bytes_on_channel() {
    let id = Id::Standard(StandardId::new(0x7FF).unwrap());
    let f = Frame::new(id, &[1, 2, 3, 4]).unwrap();
    let t = f.transfer_bytes(2);
    assert_eq!(t.len(), 24);
    assert_eq!(t[9], 2);
    assert_eq!(&t[12..16], &[1, 2, 3, 4]);
    let r = Frame::new_remote(id, 3).unwrap();
    assert!(r.is_remote_frame());
    assert_eq!(r.id(), id);
}
