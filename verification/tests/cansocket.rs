use canstack::can_id::{ExtendedId, Id, StandardId};
use canstack::cansocket::error::{
    ControllerError, ProtocolErrorKind, ProtocolErrorLocation, TransceiverError,
    TransceiverErrorKind,
};
use canstack::cansocket::frame::{Frame, FrameCreateError, CAN_ERR_FLAG};
use canstack::cansocket::socket::{
    check_error_frame, check_return, error_filter_mask, CAN_ERR_CNT, CAN_ERR_CRTL, CAN_ERR_PROT,
    CAN_ERR_TRX,
};

#[test]
fn protocol_error_location_unknown() {
    assert_eq!(ProtocolErrorLocation::try_from(255), Err(255));
}

#[test]
fn protocol_error_location_unspecified() {
    assert_eq!(u8::from(ProtocolErrorLocation::Unspecified), 0);
}

#[test]
fn tranceiver_error_unspecified() {
    assert!(TransceiverError(libc::CAN_ERR_TRX_UNSPEC as u8).error_unspecified());
    assert!(TransceiverError(libc::CAN_ERR_TRX_UNSPEC as u8).error_short_low_to_high() != true);
    assert_eq!(
        TransceiverError(libc::CAN_ERR_TRX_UNSPEC as u8).error_high(),
        Some(TransceiverErrorKind::Unspecified)
    );
    assert_eq!(
        TransceiverError(libc::CAN_ERR_TRX_UNSPEC as u8).error_low(),
        Some(TransceiverErrorKind::Unspecified)
    );
}

#[test]
fn transceiver_error_variants() {
    assert_eq!(
        TransceiverError(libc::CAN_ERR_TRX_CANH_NO_WIRE as u8).error_high(),
        Some(TransceiverErrorKind::NoWire)
    );
    assert_eq!(
        TransceiverError(libc::CAN_ERR_TRX_CANH_SHORT_TO_BAT as u8).error_high(),
        Some(TransceiverErrorKind::ShortToBattery)
    );
    assert_eq!(
        TransceiverError(libc::CAN_ERR_TRX_CANH_SHORT_TO_VCC as u8).error_high(),
        Some(TransceiverErrorKind::ShortToPower)
    );
    assert_eq!(
        TransceiverError(libc::CAN_ERR_TRX_CANH_SHORT_TO_GND as u8).error_high(),
        Some(TransceiverErrorKind::ShortToGround)
    );

    assert_eq!(
        TransceiverError(libc::CAN_ERR_TRX_CANH_NO_WIRE as u8).error_high(),
        Some(TransceiverErrorKind::NoWire)
    );
    assert_eq!(
        TransceiverError(libc::CAN_ERR_TRX_CANH_SHORT_TO_BAT as u8).error_high(),
        Some(TransceiverErrorKind::ShortToBattery)
    );
    assert_eq!(
        TransceiverError(libc::CAN_ERR_TRX_CANH_SHORT_TO_VCC as u8).error_high(),
        Some(TransceiverErrorKind::ShortToPower)
    );
    assert_eq!(
        TransceiverError(libc::CAN_ERR_TRX_CANH_SHORT_TO_GND as u8).error_high(),
        Some(TransceiverErrorKind::ShortToGround)
    );
}

#[test]
fn transceiver_error_invalid() {
    assert_eq!(TransceiverError(0xFF).error_high(), None);
    assert_eq!(TransceiverError(0xFF).error_low(), None);
    assert_eq!(TransceiverError(0xFF).error_unspecified(), false);
    assert_eq!(TransceiverError(0xFF).error_short_low_to_high(), false);
}

#[test]
fn test_check_return() {
    assert!(check_return(-1).is_err());
    assert!(check_return(0).is_ok());
    assert!(check_return(1).is_ok());
}

#[test]
fn transceiver_low_wire_codes() {
    assert_eq!(
        TransceiverError(libc::CAN_ERR_TRX_CANL_NO_WIRE as u8).error_low(),
        Some(TransceiverErrorKind::NoWire)
    );
    assert_eq!(TransceiverError(libc::CAN_ERR_TRX_CANL_NO_WIRE as u8).error_high(), None);
    let short = TransceiverError(libc::CAN_ERR_TRX_CANL_SHORT_TO_CANH as u8);
    assert!(short.error_short_low_to_high());
    assert_eq!(short.error_high(), Some(TransceiverErrorKind::ShortLowToHigh));
    assert_eq!(short.error_low(), Some(TransceiverErrorKind::ShortLowToHigh));
}

#[test]
fn every_location_reads_back() {
    for v in 0u8..=255 {
        if let Ok(loc) = ProtocolErrorLocation::try_from(v) {
            assert_eq!(u8::from(loc), v);
        }
    }
    assert_eq!(ProtocolErrorLocation::try_from(0x19), Ok(ProtocolErrorLocation::Ack));
    assert_eq!(ProtocolErrorLocation::try_from(0x01), Err(0x01));
}

#[test]
fn flag_operators() {
    let c = ControllerError::rx_overflow() | ControllerError::tx_passive();
    assert_eq!(c, ControllerError(0x21));
    assert_eq!(c & ControllerError::tx_passive(), ControllerError::tx_passive());
    let mut k = ProtocolErrorKind::bit();
    k |= ProtocolErrorKind::transmit();
    assert_eq!(k, ProtocolErrorKind(0x81));
    k ^= ProtocolErrorKind::bit();
    assert_eq!(k, ProtocolErrorKind::transmit());
}

#[test]
fn frame_new_reads_back() {
    let id = Id::Standard(StandardId::new(0x123).unwrap());
    let f = Frame::new(id, &[1, 2, 3]).unwrap();
    assert_eq!(f.id(), id);
    assert!(!f.is_extended());
    assert!(!f.is_remote_frame());
    assert_eq!(f.dlc(), 3);
    assert_eq!(f.data(), &[1, 2, 3]);
    assert_eq!(f.can_id, 0x123);

    let id = Id::Extended(ExtendedId::new(0x1ABC_DEF0).unwrap());
    let f = Frame::new(id, &[]).unwrap();
    assert_eq!(f.id(), id);
    assert!(f.is_extended());
    assert_eq!(f.can_id, 0x9ABC_DEF0);
    assert!(matches!(Frame::new(id, &[0; 9]), Err(FrameCreateError::InvalidLength)));
}

#[test]
fn frame_new_remote_reads_back() {
    let id = Id::Extended(ExtendedId::new(0x42).unwrap());
    let f = Frame::new_remote(id, 4).unwrap();
    assert_eq!(f.id(), id);
    assert!(f.is_remote_frame());
    assert!(f.is_extended());
    assert_eq!(f.dlc(), 4);
    assert!(matches!(Frame::new_remote(id, 9), Err(FrameCreateError::InvalidLength)));
}

#[test]
fn error_frame_decodes_each_class() {
    let id = Id::Standard(StandardId::new(0).unwrap());
    let mut f = Frame::new(id, &[7, 0x04, 0x02, 0x19, 0x40, 0, 12, 34]).unwrap();
    assert!(check_error_frame(&f).is_ok());
    f.can_id = CAN_ERR_FLAG | CAN_ERR_CRTL | CAN_ERR_PROT | CAN_ERR_TRX | CAN_ERR_CNT;
    let e = check_error_frame(&f).unwrap_err();
    assert!(!e.tx_timeout);
    assert_eq!(e.lost_arbitration, None);
    assert_eq!(e.controller, Some(ControllerError::rx_warning()));
    let (kind, loc) = e.protocol.unwrap();
    assert_eq!(kind, ProtocolErrorKind::form());
    assert_eq!(loc, Ok(ProtocolErrorLocation::Ack));
    assert_eq!(e.transceiver.unwrap().error_low(), Some(TransceiverErrorKind::NoWire));
    assert_eq!(e.tx_rx_error_count, Some((12, 34)));
    assert!(!e.bus_off);
}

#[test]
fn error_filter_covers_all_classes() {
    assert_eq!(error_filter_mask(true), 0x3FF);
    assert_eq!(error_filter_mask(false), 0);
}
