//! What a SocketCAN socket decides: the error classes to receive, the
//! reading of a system call's return value, and the decoding of error frames.

use crate::cansocket::error::{
    spec_location, CanError, ControllerError, ProtocolErrorKind, ProtocolErrorLocation,
    TransceiverError,
};
use crate::cansocket::frame::{Frame, CAN_ERR_FLAG};
use vstd::prelude::*;

verus! {

/// Error class: transmit timeout.
pub const CAN_ERR_TX_TIMEOUT: u32 = 0x0001;
/// Error class: arbitration lost (bit number in data byte 0).
pub const CAN_ERR_LOSTARB: u32 = 0x0002;
/// Error class: controller problem (details in data byte 1).
pub const CAN_ERR_CRTL: u32 = 0x0004;
/// Error class: protocol violation (kind in data byte 2, location in byte 3).
pub const CAN_ERR_PROT: u32 = 0x0008;
/// Error class: transceiver status (details in data byte 4).
pub const CAN_ERR_TRX: u32 = 0x0010;
/// Error class: no acknowledgement on transmission.
pub const CAN_ERR_ACK: u32 = 0x0020;
/// Error class: bus off.
pub const CAN_ERR_BUSOFF: u32 = 0x0040;
/// Error class: bus error.
pub const CAN_ERR_BUSERROR: u32 = 0x0080;
/// Error class: controller restarted.
pub const CAN_ERR_RESTARTED: u32 = 0x0100;
/// Error class: error counters (in data bytes 6 and 7).
pub const CAN_ERR_CNT: u32 = 0x0200;

/// The error filter that asks for every error class, or for none.
pub fn error_filter_mask(enabled: bool) -> (r: u32)
    ensures
        r == (if enabled {
            CAN_ERR_TX_TIMEOUT | CAN_ERR_LOSTARB | CAN_ERR_CRTL | CAN_ERR_PROT | CAN_ERR_TRX
                | CAN_ERR_ACK | CAN_ERR_BUSOFF | CAN_ERR_BUSERROR | CAN_ERR_RESTARTED | CAN_ERR_CNT
        } else {
            0
        }),
{
    if enabled {
        CAN_ERR_TX_TIMEOUT | CAN_ERR_LOSTARB | CAN_ERR_CRTL | CAN_ERR_PROT | CAN_ERR_TRX
            | CAN_ERR_ACK | CAN_ERR_BUSOFF | CAN_ERR_BUSERROR | CAN_ERR_RESTARTED | CAN_ERR_CNT
    } else {
        0
    }
}

/// A system call's return value: `-1` reports failure (the reason is in
/// `errno`), anything else is the call's result.
pub fn check_return(return_value: i64) -> (r: Result<i64, ()>)
    ensures
        r is Err <==> return_value == -1,
        r matches Ok(v) ==> v == return_value,
{
    if return_value == -1 {
        Err(())
    } else {
        Ok(return_value)
    }
}

/// The error class `flag` is set in identifier word `can_id`.
pub open spec fn has_class(can_id: u32, flag: u32) -> bool {
    can_id & flag != 0
}

/// What an error frame reports: each class flag of the identifier turns on
/// its field, read from the data byte the class uses.
pub open spec fn decoded_error(frame: Frame) -> CanError {
    let id = frame.can_id;
    let d = frame.data@;
    CanError {
        tx_timeout: has_class(id, CAN_ERR_TX_TIMEOUT),
        lost_arbitration: if has_class(id, CAN_ERR_LOSTARB) {
            Some(d[0])
        } else {
            None
        },
        controller: if has_class(id, CAN_ERR_CRTL) {
            Some(ControllerError(d[1]))
        } else {
            None
        },
        protocol: if has_class(id, CAN_ERR_PROT) {
            Some((ProtocolErrorKind(d[2]), spec_location(d[3])))
        } else {
            None
        },
        transceiver: if has_class(id, CAN_ERR_TRX) {
            Some(TransceiverError(d[4]))
        } else {
            None
        },
        no_ack: has_class(id, CAN_ERR_ACK),
        bus_off: has_class(id, CAN_ERR_BUSOFF),
        bus_error: has_class(id, CAN_ERR_BUSERROR),
        restarted: has_class(id, CAN_ERR_RESTARTED),
        tx_rx_error_count: if has_class(id, CAN_ERR_CNT) {
            Some((d[6], d[7]))
        } else {
            None
        },
    }
}

/// `Ok` for a frame without the error flag; for an error frame, the error
/// it reports.
pub fn check_error_frame(frame: &Frame) -> (r: Result<(), CanError>)
    ensures
        r is Ok <==> !has_class(frame.can_id, CAN_ERR_FLAG),
        r matches Err(e) ==> e == decoded_error(*frame),
{
    let id = frame.can_id;
    if (id & CAN_ERR_FLAG) == 0 {
        return Ok(());
    }
    let d = &frame.data;
    Err(
        CanError {
            tx_timeout: (id & CAN_ERR_TX_TIMEOUT) != 0,
            lost_arbitration: if (id & CAN_ERR_LOSTARB) != 0 {
                Some(d[0])
            } else {
                None
            },
            controller: if (id & CAN_ERR_CRTL) != 0 {
                Some(ControllerError(d[1]))
            } else {
                None
            },
            protocol: if (id & CAN_ERR_PROT) != 0 {
                Some((ProtocolErrorKind(d[2]), ProtocolErrorLocation::try_from(d[3])))
            } else {
                None
            },
            transceiver: if (id & CAN_ERR_TRX) != 0 {
                Some(TransceiverError(d[4]))
            } else {
                None
            },
            no_ack: (id & CAN_ERR_ACK) != 0,
            bus_off: (id & CAN_ERR_BUSOFF) != 0,
            bus_error: (id & CAN_ERR_BUSERROR) != 0,
            restarted: (id & CAN_ERR_RESTARTED) != 0,
            tx_rx_error_count: if (id & CAN_ERR_CNT) != 0 {
                Some((d[6], d[7]))
            } else {
                None
            },
        },
    )
}

/// The error-frame layout of Linux `can/error.h`: the bit position where
/// arbitration was lost is data byte 0, the controller status byte 1, the
/// protocol error kind and location bytes 2 and 3, the transceiver status
/// byte 4 and the transmit and receive error counters bytes 6 and 7. Each
/// field is present exactly when its class flag is set, and depends on its
/// own bytes alone: two frames with the same identifier word that agree on
/// a field's bytes decode that field alike.
pub proof fn lemma_error_frame_layout(f: Frame, g: Frame)
    ensures
        ({
            let e = decoded_error(f);
            let d = f.data@;
            let id = f.can_id;
            &&& (e.lost_arbitration is Some) == (id & CAN_ERR_LOSTARB != 0)
            &&& id & CAN_ERR_LOSTARB != 0 ==> e.lost_arbitration == Some(d[0])
            &&& (e.controller is Some) == (id & CAN_ERR_CRTL != 0)
            &&& id & CAN_ERR_CRTL != 0 ==> e.controller == Some(ControllerError(d[1]))
            &&& (e.protocol is Some) == (id & CAN_ERR_PROT != 0)
            &&& id & CAN_ERR_PROT != 0 ==> (e.protocol matches Some((k, l)) && k == ProtocolErrorKind(d[2])
                && (l matches Ok(loc) ==> loc.spec_code() == d[3]) && (l matches Err(v) ==> v == d[3]))
            &&& (e.transceiver is Some) == (id & CAN_ERR_TRX != 0)
            &&& id & CAN_ERR_TRX != 0 ==> (e.transceiver matches Some(t) && t.0 == d[4])
            &&& (e.tx_rx_error_count is Some) == (id & CAN_ERR_CNT != 0)
            &&& id & CAN_ERR_CNT != 0 ==> e.tx_rx_error_count == Some((d[6], d[7]))
        }),
        f.can_id == g.can_id && f.data@[0] == g.data@[0] ==> decoded_error(f).lost_arbitration
            == decoded_error(g).lost_arbitration,
        f.can_id == g.can_id && f.data@[1] == g.data@[1] ==> decoded_error(f).controller
            == decoded_error(g).controller,
        f.can_id == g.can_id && f.data@[6] == g.data@[6] && f.data@[7] == g.data@[7]
            ==> decoded_error(f).tx_rx_error_count == decoded_error(g).tx_rx_error_count,
{
    let d = f.data@;
    match spec_location(d[3]) {
        Ok(loc) => {
            ProtocolErrorLocation::lemma_code_injective(loc, loc);
        },
        Err(_) => {},
    }
}

} // verus!
