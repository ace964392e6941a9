use canstack::saelient::transport::{
    AbortReason, AbortSenderRole, ClearToSend, ConnectionAbort, DataTransfer, EndOfMessageAck,
    Error, RequestToSend, Response, Transfer,
};
use canstack::saelient::Pgn;
use managed::ManagedSlice;

#[test]
fn rts_construct_and_getters() {
    let pgn = Pgn::TransportProtocolConnectionManagement;
    let rts = RequestToSend::new(100, Some(5), pgn);
    assert_eq!(rts.total_size(), 100);
    assert_eq!(rts.total_packets(), 15);
    assert_eq!(rts.max_packets_per_response(), Some(5));
    assert_eq!(rts.pgn(), pgn);
}

#[test]
fn rts_no_limit_serialises_as_ff() {
    let pgn = Pgn::MemoryAccessRequest;
    let rts = RequestToSend::new(14, None, pgn);
    let bytes: [u8; 8] = rts.into();
    assert_eq!(bytes[0], 16);
    assert_eq!(bytes[4], 0xFF);
}

#[test]
fn rts_serialise_layout() {
    let pgn = Pgn::Request;
    let rts = RequestToSend::new(9, Some(1), pgn);
    let bytes: [u8; 8] = rts.into();
    assert_eq!(bytes[0], 16);
    assert_eq!(bytes[1], 9);
    assert_eq!(bytes[2], 0);
    assert_eq!(bytes[3], 2);
    assert_eq!(bytes[4], 1);
    assert_eq!(
        u32::from_le_bytes([bytes[5], bytes[6], bytes[7], 0]),
        u32::from(pgn)
    );
}

#[test]
fn rts_try_from_roundtrip() {
    let pgn = Pgn::MemoryAccessResponse;
    let rts = RequestToSend::new(21, Some(3), pgn);
    let bytes: [u8; 8] = rts.clone().into();
    let decoded = RequestToSend::try_from(bytes.as_ref()).unwrap();
    assert_eq!(decoded.total_size(), rts.total_size());
    assert_eq!(decoded.total_packets(), rts.total_packets());
    assert_eq!(
        decoded.max_packets_per_response(),
        rts.max_packets_per_response()
    );
    assert_eq!(decoded.pgn(), rts.pgn());
}

#[test]
fn rts_try_from_no_limit_roundtrip() {
    let pgn = Pgn::Request;
    let rts = RequestToSend::new(14, None, pgn);
    let bytes: [u8; 8] = rts.into();
    let decoded = RequestToSend::try_from(bytes.as_ref()).unwrap();
    assert_eq!(decoded.max_packets_per_response(), None);
}

#[test]
fn rts_try_from_wrong_mux() {
    let raw: &[u8] = &[17, 0x09, 0x00, 0x02, 0x01, 0x00, 0xEA, 0x00];
    assert!(RequestToSend::try_from(raw).is_err());
}

#[test]
fn rts_try_from_wrong_length() {
    let raw: &[u8] = &[16, 0x09, 0x00];
    assert!(RequestToSend::try_from(raw).is_err());
}

#[test]
fn rts_max_total_size_254_packets() {
    let rts = RequestToSend::new(1785, None, Pgn::Request);
    assert_eq!(rts.total_packets(), 255);
}

#[test]
fn cts_construct_and_getters() {
    let pgn = Pgn::Request;
    let cts = ClearToSend::new(Some(5), 3, pgn);
    assert_eq!(cts.max_packets_per_response(), Some(5));
    assert_eq!(cts.next_sequence(), 3);
}

#[test]
fn cts_serialise_layout() {
    let pgn = Pgn::Request;
    let cts = ClearToSend::new(Some(3), 1, pgn);
    let bytes: [u8; 8] = (&cts).into();
    assert_eq!(bytes[0], 17);
    assert_eq!(bytes[1], 3);
    assert_eq!(bytes[2], 1);
    assert_eq!(bytes[3], 0xFF);
    assert_eq!(bytes[4], 0xFF);
    assert_eq!(
        u32::from_le_bytes([bytes[5], bytes[6], bytes[7], 0]),
        u32::from(pgn)
    );
}

#[test]
fn cts_no_limit_serialises_as_ff() {
    let cts = ClearToSend::new(None, 1, Pgn::Request);
    let bytes: [u8; 8] = (&cts).into();
    assert_eq!(bytes[1], 0xFF);
}

#[test]
fn cts_try_from_roundtrip() {
    let pgn = Pgn::MemoryAccessRequest;
    let cts = ClearToSend::new(Some(7), 4, pgn);
    let bytes: [u8; 8] = (&cts).into();
    let decoded = ClearToSend::try_from(bytes.as_ref()).unwrap();
    assert_eq!(
        decoded.max_packets_per_response(),
        cts.max_packets_per_response()
    );
    assert_eq!(decoded.next_sequence(), cts.next_sequence());
}

#[test]
fn cts_try_from_no_limit_roundtrip() {
    let cts = ClearToSend::new(None, 1, Pgn::Request);
    let bytes: [u8; 8] = (&cts).into();
    let decoded = ClearToSend::try_from(bytes.as_ref()).unwrap();
    assert_eq!(decoded.max_packets_per_response(), None);
}

#[test]
fn cts_try_from_wrong_mux() {
    let raw: &[u8] = &[16, 5, 1, 0xFF, 0xFF, 0x00, 0xEA, 0x00];
    assert!(ClearToSend::try_from(raw).is_err());
}

#[test]
fn cts_try_from_wrong_length() {
    let raw: &[u8] = &[17, 5];
    assert!(ClearToSend::try_from(raw).is_err());
}

#[test]
fn eom_ack_construct_and_getters() {
    let pgn = Pgn::Request;
    let ack = EndOfMessageAck::new(100, 15, pgn);
    assert_eq!(ack.total_size(), 100);
    assert_eq!(ack.total_packets(), 15);
    assert_eq!(ack.pgn(), pgn);
}

#[test]
fn eom_ack_serialise_layout() {
    let pgn = Pgn::Request;
    let ack = EndOfMessageAck::new(200, 29, pgn);
    let bytes: [u8; 8] = (&ack).into();
    assert_eq!(bytes[0], 19);
    assert_eq!(u16::from_le_bytes([bytes[1], bytes[2]]), 200);
    assert_eq!(bytes[3], 29);
    assert_eq!(bytes[4], 0xFF);
    assert_eq!(
        u32::from_le_bytes([bytes[5], bytes[6], bytes[7], 0]),
        u32::from(pgn)
    );
}

#[test]
fn eom_ack_try_from_roundtrip() {
    let pgn = Pgn::MemoryAccessResponse;
    let ack = EndOfMessageAck::new(1785, 255, pgn);
    let bytes: [u8; 8] = (&ack).into();
    let decoded = EndOfMessageAck::try_from(bytes.as_ref()).unwrap();
    assert_eq!(decoded.total_size(), ack.total_size());
    assert_eq!(decoded.total_packets(), ack.total_packets());
    assert_eq!(decoded.pgn(), ack.pgn());
}

#[test]
fn eom_ack_try_from_wrong_mux() {
    let raw: &[u8] = &[16, 0xC8, 0x00, 0x1D, 0xFF, 0x00, 0xEA, 0x00];
    assert!(EndOfMessageAck::try_from(raw).is_err());
}

#[test]
fn eom_ack_try_from_wrong_length() {
    let raw: &[u8] = &[19, 0xC8];
    assert!(EndOfMessageAck::try_from(raw).is_err());
}

#[test]
fn connection_abort_construct_and_getters() {
    let pgn = Pgn::Request;
    let abort = ConnectionAbort::new(AbortReason::Timeout, AbortSenderRole::Sender, pgn);
    assert_eq!(abort.reason(), AbortReason::Timeout);
    assert_eq!(abort.sender_role(), AbortSenderRole::Sender);
    assert_eq!(abort.pgn(), pgn);
}

#[test]
fn connection_abort_serialise_layout() {
    let pgn = Pgn::Request;
    let abort = ConnectionAbort::new(AbortReason::Timeout, AbortSenderRole::Receiver, pgn);
    let bytes: [u8; 8] = (&abort).into();
    assert_eq!(bytes[0], 255);
    assert_eq!(bytes[1], u8::from(&AbortReason::Timeout));
    assert_eq!(bytes[2] & 0b11, u8::from(&AbortSenderRole::Receiver));
    assert_eq!(bytes[2] & 0b11111100, 0b11111100);
    assert_eq!(bytes[3], 0xFF);
    assert_eq!(bytes[4], 0xFF);
    assert_eq!(
        u32::from_le_bytes([bytes[5], bytes[6], bytes[7], 0]),
        u32::from(pgn)
    );
}

#[test]
fn connection_abort_try_from_roundtrip_all_reasons() {
    let reasons = [
        AbortReason::MaxConnections,
        AbortReason::CanceledBySystem,
        AbortReason::Timeout,
        AbortReason::CtsWhileDataTransfer,
        AbortReason::RetransmitLimitReached,
        AbortReason::UnexpectedDataTransfer,
        AbortReason::BadSequenceNumber,
        AbortReason::DuplicateSequenceNumber,
        AbortReason::MessageTooLarge,
        AbortReason::Custom,
    ];
    for reason in reasons {
        let abort = ConnectionAbort::new(reason, AbortSenderRole::Sender, Pgn::Request);
        let bytes: [u8; 8] = (&abort).into();
        let decoded = ConnectionAbort::try_from(bytes.as_ref()).unwrap();
        assert_eq!(decoded.reason(), reason, "roundtrip failed for {reason:?}");
    }
}

#[test]
fn connection_abort_unknown_reason_falls_back_to_custom() {
    let raw: &[u8] = &[255, 42, 0b11111111, 0xFF, 0xFF, 0x00, 0xEA, 0x00];
    let decoded = ConnectionAbort::try_from(raw).unwrap();
    assert_eq!(decoded.reason(), AbortReason::Custom);
}

#[test]
fn connection_abort_try_from_all_sender_roles() {
    let roles = [
        AbortSenderRole::Sender,
        AbortSenderRole::Receiver,
        AbortSenderRole::Reserved,
        AbortSenderRole::NotSpecified,
    ];
    for role in roles {
        let abort = ConnectionAbort::new(AbortReason::Timeout, role, Pgn::Request);
        let bytes: [u8; 8] = (&abort).into();
        let decoded = ConnectionAbort::try_from(bytes.as_ref()).unwrap();
        assert_eq!(decoded.sender_role(), role, "roundtrip failed for {role:?}");
    }
}

#[test]
fn connection_abort_reserved_role_roundtrips_as_reserved() {
    let raw: &[u8] = &[255, 3, 0b11111110, 0xFF, 0xFF, 0x00, 0xEA, 0x00];
    let decoded = ConnectionAbort::try_from(raw).unwrap();
    assert_eq!(decoded.sender_role(), AbortSenderRole::Reserved);
}

#[test]
fn connection_abort_try_from_wrong_mux() {
    let raw: &[u8] = &[16, 3, 0xFF, 0xFF, 0xFF, 0x00, 0xEA, 0x00];
    assert!(ConnectionAbort::try_from(raw).is_err());
}

#[test]
fn connection_abort_try_from_wrong_length() {
    let raw: &[u8] = &[255, 3];
    assert!(ConnectionAbort::try_from(raw).is_err());
}

#[test]
fn data_transfer_construct_and_getters() {
    let data = [0x01, 0x02, 0x03, 0x04, 0x05, 0x06, 0x07];
    let dt = DataTransfer::new(1, data);
    assert_eq!(dt.sequence(), 1);
    assert_eq!(dt.data(), data);
}

#[test]
fn data_transfer_serialise_layout() {
    let data = [0xAA, 0xBB, 0xCC, 0xDD, 0xEE, 0xFF, 0x11];
    let dt = DataTransfer::new(3, data);
    let bytes: [u8; 8] = (&dt).into();
    assert_eq!(bytes[0], 3);
    assert_eq!(&bytes[1..], &data);
}

#[test]
fn data_transfer_padded_packet() {
    let data = [0x01, 0x02, 0xFF, 0xFF, 0xFF, 0xFF, 0xFF];
    let dt = DataTransfer::new(2, data);
    let bytes: [u8; 8] = (&dt).into();
    assert_eq!(bytes[3], 0xFF);
    assert_eq!(bytes[7], 0xFF);
}

#[test]
fn data_transfer_try_from_roundtrip() {
    let data = [1, 2, 3, 4, 5, 6, 7];
    let dt = DataTransfer::new(5, data);
    let bytes: [u8; 8] = (&dt).into();
    let decoded = DataTransfer::try_from(bytes.as_ref()).unwrap();
    assert_eq!(decoded.sequence(), dt.sequence());
    assert_eq!(decoded.data(), dt.data());
}

#[test]
fn data_transfer_try_from_wrong_length() {
    let raw: &[u8] = &[1, 2, 3];
    assert!(DataTransfer::try_from(raw).is_err());
    assert_eq!(DataTransfer::try_from(raw).unwrap_err(), raw);
}

#[test]
fn abort_reason_try_from_all_valid() {
    let pairs: &[(u8, AbortReason)] = &[
        (1, AbortReason::MaxConnections),
        (2, AbortReason::CanceledBySystem),
        (3, AbortReason::Timeout),
        (4, AbortReason::CtsWhileDataTransfer),
        (5, AbortReason::RetransmitLimitReached),
        (6, AbortReason::UnexpectedDataTransfer),
        (7, AbortReason::BadSequenceNumber),
        (8, AbortReason::DuplicateSequenceNumber),
        (9, AbortReason::MessageTooLarge),
        (250, AbortReason::Custom),
    ];
    for (byte, expected) in pairs {
        assert_eq!(AbortReason::try_from(*byte).unwrap(), *expected);
        assert_eq!(u8::from(expected), *byte);
    }
}

#[test]
fn abort_reason_try_from_invalid() {
    assert_eq!(AbortReason::try_from(42u8), Err(42));
    assert_eq!(AbortReason::try_from(0u8), Err(0));
}

#[test]
fn abort_sender_role_try_from_all_valid() {
    assert_eq!(
        AbortSenderRole::try_from(0u8).unwrap(),
        AbortSenderRole::Sender
    );
    assert_eq!(
        AbortSenderRole::try_from(1u8).unwrap(),
        AbortSenderRole::Receiver
    );
    assert_eq!(
        AbortSenderRole::try_from(2u8).unwrap(),
        AbortSenderRole::Reserved
    );
    assert_eq!(
        AbortSenderRole::try_from(3u8).unwrap(),
        AbortSenderRole::NotSpecified
    );
}

// Code 2 names `Reserved` (checked by abort_sender_role_try_from_all_valid),
// so a test expecting `try_from(2)` to be refused cannot hold and is not kept
// here; the codes refused are those above 3.
#[test]
fn abort_sender_role_try_from_above_three() {
    assert_eq!(AbortSenderRole::try_from(4u8), Err(4));
    assert_eq!(AbortSenderRole::try_from(255u8), Err(255));
}

#[test]
fn abort_sender_role_into_u8() {
    assert_eq!(u8::from(&AbortSenderRole::Sender), 0);
    assert_eq!(u8::from(&AbortSenderRole::Receiver), 1);
    assert_eq!(u8::from(&AbortSenderRole::Reserved), 2);
    assert_eq!(u8::from(&AbortSenderRole::NotSpecified), 3);
}

fn dt(seq: u8, data: [u8; 7]) -> DataTransfer {
    let mut raw = [0u8; 8];
    raw[0] = seq;
    raw[1..].copy_from_slice(&data);
    DataTransfer::try_from(raw.as_ref()).unwrap()
}

#[test]
fn transmission() {
    let rts = RequestToSend::new(16, Some(2), Pgn::ProprietaryA);
    let mut transfer = Transfer::new(rts);

    let dt1 = DataTransfer::try_from([1, 1, 2, 3, 4, 5, 6, 7].as_ref()).unwrap();
    transfer.next(dt1).unwrap();

    let dt2 = DataTransfer::try_from([2, 1, 2, 3, 4, 5, 6, 7].as_ref()).unwrap();
    let cts_response = transfer.next(dt2).unwrap().expect("Response frame");
    assert!(matches!(&cts_response, Response::Cts(cts) if cts.next_sequence() == 3));

    let dt3 = DataTransfer::try_from([3, 1, 2, 0xFF, 0xFF, 0xFF, 0xFF, 0xFF].as_ref()).unwrap();
    let ack_response = transfer.next(dt3).unwrap().expect("Response frame");
    assert!(matches!(&ack_response, Response::End(end) if end.total_size() == 16));
    assert!(matches!(&ack_response, Response::End(end) if end.total_packets() == 3));

    assert_eq!(
        transfer.finished().unwrap(),
        &[1, 2, 3, 4, 5, 6, 7, 1, 2, 3, 4, 5, 6, 7, 1, 2]
    );
}

#[test]
fn finished_returns_none_before_complete() {
    let rts = RequestToSend::new(14, None, Pgn::Request);
    let transfer = Transfer::new(rts);
    assert!(transfer.finished().is_none());
}

#[test]
fn transfer_with_borrowed_storage_full_roundtrip() {
    let pgn = Pgn::Request;
    let rts = RequestToSend::new(9, None, pgn);
    let mut buf = [0u8; 14];
    let mut transfer = Transfer::new_with_storage(rts, ManagedSlice::from(buf.as_mut()));

    assert!(transfer.finished().is_none());

    let resp = transfer
        .next(dt(1, [0xAA, 0xBB, 0xCC, 0xDD, 0xEE, 0xFF, 0x11]))
        .unwrap();
    assert!(resp.is_none(), "no response mid-transfer without CTS limit");

    let resp = transfer
        .next(dt(2, [0x22, 0x33, 0xFF, 0xFF, 0xFF, 0xFF, 0xFF]))
        .unwrap();
    assert!(matches!(resp, Some(Response::End(_))));

    let data = transfer.finished().unwrap();
    assert_eq!(
        data,
        &[0xAA, 0xBB, 0xCC, 0xDD, 0xEE, 0xFF, 0x11, 0x22, 0x33]
    );
}

#[test]
fn transfer_with_borrowed_storage_cts_triggered() {
    let pgn = Pgn::Request;
    let rts = RequestToSend::new(16, Some(2), pgn);
    let mut buf = [0u8; 21];
    let mut transfer = Transfer::new_with_storage(rts, ManagedSlice::from(buf.as_mut()));

    transfer.next(dt(1, [1, 2, 3, 4, 5, 6, 7])).unwrap();

    let resp = transfer.next(dt(2, [8, 9, 10, 11, 12, 13, 14])).unwrap();
    assert!(
        matches!(&resp, Some(Response::Cts(cts)) if cts.next_sequence() == 3),
        "expected CTS after 2nd packet"
    );

    let resp = transfer
        .next(dt(3, [15, 16, 0xFF, 0xFF, 0xFF, 0xFF, 0xFF]))
        .unwrap();
    assert!(matches!(resp, Some(Response::End(_))));

    assert_eq!(
        transfer.finished().unwrap(),
        &[1, 2, 3, 4, 5, 6, 7, 8, 9, 10, 11, 12, 13, 14, 15, 16]
    );
}

#[test]
fn transfer_borrowed_storage_too_small_returns_error() {
    let rts = RequestToSend::new(9, None, Pgn::Request);
    let mut buf = [0u8; 7];
    let mut transfer = Transfer::new_with_storage(rts, ManagedSlice::from(buf.as_mut()));

    transfer.next(dt(1, [1, 2, 3, 4, 5, 6, 7])).unwrap();

    let err = transfer
        .next(dt(2, [8, 9, 0xFF, 0xFF, 0xFF, 0xFF, 0xFF]))
        .unwrap_err();
    assert!(matches!(err.0, Error::StorageTooSmall));
    assert_eq!(err.1.reason(), AbortReason::Custom);
    assert_eq!(err.1.sender_role(), AbortSenderRole::Receiver);
}

#[test]
fn out_of_order_packet_returns_sequence_error() {
    let rts = RequestToSend::new(14, None, Pgn::Request);
    let mut transfer = Transfer::new(rts);

    let err = transfer.next(dt(2, [1, 2, 3, 4, 5, 6, 7])).unwrap_err();
    assert!(matches!(err.0, Error::Sequence));
    assert_eq!(err.1.reason(), AbortReason::BadSequenceNumber);
    assert_eq!(err.1.sender_role(), AbortSenderRole::Receiver);
}

#[test]
fn duplicate_packet_returns_sequence_error() {
    let rts = RequestToSend::new(14, None, Pgn::Request);
    let mut transfer = Transfer::new(rts);

    transfer.next(dt(1, [1, 2, 3, 4, 5, 6, 7])).unwrap();
    let err = transfer.next(dt(1, [1, 2, 3, 4, 5, 6, 7])).unwrap_err();
    assert!(matches!(err.0, Error::Sequence));
}

#[test]
fn any_packet_after_abort_returns_previous_abort_error() {
    let rts = RequestToSend::new(14, None, Pgn::Request);
    let mut transfer = Transfer::new(rts);

    transfer.next(dt(99, [0; 7])).unwrap_err();

    let err = transfer.next(dt(1, [0; 7])).unwrap_err();
    assert!(matches!(err.0, Error::PreviousAbort));
    assert_eq!(err.1.reason(), AbortReason::UnexpectedDataTransfer);
    assert_eq!(err.1.sender_role(), AbortSenderRole::Receiver);
}

#[test]
fn response_cts_into_bytes() {
    let cts = ClearToSend::new(Some(5), 3, Pgn::Request);
    let resp = Response::Cts(cts.clone());
    let from_resp: [u8; 8] = (&resp).into();
    let from_cts: [u8; 8] = (&cts).into();
    assert_eq!(from_resp, from_cts);
}

#[test]
fn response_end_into_bytes() {
    let end = EndOfMessageAck::new(16, 3, Pgn::Request);
    let resp = Response::End(end.clone());
    let from_resp: [u8; 8] = (&resp).into();
    let from_end: [u8; 8] = (&end).into();
    assert_eq!(from_resp, from_end);
}

#[test]
fn no_cts_when_no_limit() {
    let rts = RequestToSend::new(21, None, Pgn::Request);
    let mut transfer = Transfer::new(rts);

    assert!(transfer.next(dt(1, [1, 2, 3, 4, 5, 6, 7])).unwrap().is_none());
    assert!(transfer.next(dt(2, [8, 9, 10, 11, 12, 13, 14])).unwrap().is_none());
    let resp = transfer.next(dt(3, [15, 16, 17, 18, 19, 20, 21])).unwrap();
    assert!(matches!(resp, Some(Response::End(_))));
}

#[test]
fn owned_reassembly_cuts_to_total_size() {
    let rts = RequestToSend::new(10, None, Pgn::Request);
    let mut transfer = Transfer::new(rts);
    transfer.next(dt(1, [1, 2, 3, 4, 5, 6, 7])).unwrap();
    let resp = transfer.next(dt(2, [8, 9, 10, 11, 12, 13, 14])).unwrap();
    assert!(matches!(resp, Some(Response::End(end)) if end.total_size() == 10 && end.total_packets() == 2));
    assert_eq!(transfer.finished().unwrap(), &[1, 2, 3, 4, 5, 6, 7, 8, 9, 10]);
}

#[test]
fn aborted_transfer_never_finishes() {
    let rts = RequestToSend::new(9, None, Pgn::Request);
    let mut transfer = Transfer::new(rts);
    transfer.next(dt(1, [1, 2, 3, 4, 5, 6, 7])).unwrap();
    transfer.next(dt(3, [0; 7])).unwrap_err();
    let err = transfer.next(dt(2, [0; 7])).unwrap_err();
    assert!(matches!(err.0, Error::PreviousAbort));
    assert!(transfer.finished().is_none());
}
