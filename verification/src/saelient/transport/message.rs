//! Transport protocol connection management and data transfer messages.

use crate::bytes::{le16, le16_bytes, le32, le32_bytes};
use crate::saelient::id::{Pgn, pgn_from_value, pgn_value};
use vstd::prelude::*;
use vstd::std_specs::convert::FromSpecImpl;

verus! {

/// The three low bytes of a PGN, little-endian, as the messages carry it.
pub open spec fn pgn_bytes(p: Pgn) -> Seq<u8> {
    le32_bytes(pgn_value(p)).take(3)
}

/// The PGN in bytes 5 to 7 of a message.
pub open spec fn pgn_at(b: Seq<u8>) -> Pgn {
    pgn_from_value(le32(b[5], b[6], b[7], 0) as u32)
}

/// The PGN carried in three bytes is the one written, for PGNs of 24 bits.
pub proof fn lemma_pgn_bytes(p: Pgn, b: Seq<u8>)
    requires
        pgn_value(p) <= 0xFF_FFFF,
        b.len() == 8,
        b.subrange(5, 8) == pgn_bytes(p),
    ensures
        pgn_value(pgn_at(b)) == pgn_value(p),
{
    assert(b[5] == pgn_bytes(p)[0]);
    assert(b[6] == pgn_bytes(p)[1]);
    assert(b[7] == pgn_bytes(p)[2]);
    crate::saelient::id::lemma_pgn_value_roundtrip(le32(b[5], b[6], b[7], 0) as u32);
}

/// Read the three PGN bytes at 5 to 7 of an 8-byte message.
fn read_pgn(value: &[u8]) -> (r: Pgn)
    requires
        value@.len() == 8,
    ensures
        r == pgn_at(value@),
{
    Pgn::from(crate::bytes::u32_from_le(value[5], value[6], value[7], 0))
}

/// The PGN bytes to write.
fn write_pgn(p: Pgn) -> (r: [u8; 4])
    ensures
        r@.take(3) == pgn_bytes(p),
{
    let r = crate::bytes::u32_to_le(u32::from(p));
    assert(r@ == le32_bytes(pgn_value(p))) by {
        assert(r@ =~= le32_bytes(pgn_value(p)));
    }
    r
}

/// The packet limit byte: the limit, or 255 for none.
pub open spec fn limit_byte(m: Option<u8>) -> u8 {
    match m {
        Some(v) => v,
        None => 255u8,
    }
}

/// The packet limit of a byte: none for 255.
pub open spec fn limit_of(b: u8) -> Option<u8> {
    if b < 255 {
        Some(b)
    } else {
        None
    }
}

/// The packet limit a byte stands for.
fn read_limit(b: u8) -> (r: Option<u8>)
    ensures
        r == limit_of(b),
{
    if b < 255 {
        Some(b)
    } else {
        None
    }
}

/// The byte standing for a packet limit.
fn write_limit(m: Option<u8>) -> (r: u8)
    ensures
        r == limit_byte(m),
{
    match m {
        Some(v) => v,
        None => 255,
    }
}

/// Number of 7-byte packets needed for `size` bytes.
pub open spec fn packets_for(size: int) -> int {
    (size + 6) / 7
}

/// Control byte of TP.CM_RTS.
pub const RTS_MUX: u8 = 16;
/// Control byte of TP.CM_CTS.
pub const CTS_MUX: u8 = 17;
/// Control byte of TP.CM_EndOfMsgAck.
pub const EOM_MUX: u8 = 19;
/// Control byte of TP.Conn_Abort.
pub const ABORT_MUX: u8 = 255;

/// Request to send (TP.CM_RTS) message.
#[derive(Debug, Clone)]
pub struct RequestToSend {
    total_size: u16,
    total_packets: u8,
    max_packets_per_response: Option<u8>,
    pgn: Pgn,
}

impl View for RequestToSend {
    /// Total size, total packets, packet limit per CTS, PGN.
    type V = (u16, u8, Option<u8>, Pgn);

    closed spec fn view(&self) -> (u16, u8, Option<u8>, Pgn) {
        (self.total_size, self.total_packets, self.max_packets_per_response, self.pgn)
    }
}

/// The bytes of a TP.CM_RTS message.
pub open spec fn rts_bytes(v: (u16, u8, Option<u8>, Pgn)) -> Seq<u8> {
    seq![RTS_MUX] + le16_bytes(v.0) + seq![v.1, limit_byte(v.2)] + pgn_bytes(v.3)
}

/// The fields a TP.CM_RTS message carries.
pub open spec fn rts_fields(b: Seq<u8>) -> (u16, u8, Option<u8>, Pgn) {
    (le16(b[1], b[2]) as u16, b[3], limit_of(b[4]), pgn_at(b))
}

impl RequestToSend {
    /// Create a new request to send message.
    ///
    /// - `total_size` must be between 9 and 1785 bytes.
    /// - `max_packets_per_response` must be between 1 and 254 (`None` for no limit).
    pub fn new(total_size: u16, max_packets_per_response: Option<u8>, pgn: Pgn) -> (r: Self)
        requires
            9 <= total_size <= 1785,
            max_packets_per_response matches Some(m) ==> 1 <= m < 255,
        ensures
            r@ == (total_size, packets_for(total_size as int) as u8, max_packets_per_response, pgn),
            2 <= r@.1,
    {
        let total_packets = (total_size + 6) / 7;
        Self { total_size, total_packets: total_packets as u8, max_packets_per_response, pgn }
    }

    /// Total number of bytes in this transfer.
    pub fn total_size(&self) -> (r: u16)
        ensures
            r == self@.0,
    {
        self.total_size
    }

    /// Total number of packets in this transfer.
    pub fn total_packets(&self) -> (r: u8)
        ensures
            r == self@.1,
    {
        self.total_packets
    }

    /// The maximum number of packets the sender may send for every
    /// TP.CM_CTS message; `None` for no limit.
    pub fn max_packets_per_response(&self) -> (r: Option<u8>)
        ensures
            r == self@.2,
    {
        self.max_packets_per_response
    }

    /// Transfer contents PGN.
    pub fn pgn(&self) -> (r: Pgn)
        ensures
            r == self@.3,
    {
        self.pgn
    }

    /// Parse a TP.CM_RTS message: 8 bytes with control byte 16; any other
    /// slice is handed back.
    pub fn try_from<'a>(value: &'a [u8]) -> (r: Result<Self, &'a [u8]>)
        ensures
            r is Ok <==> value@.len() == 8 && value@[0] == RTS_MUX,
            r matches Ok(m) ==> m@ == rts_fields(value@),
            r matches Err(e) ==> e@ == value@,
    {
        if value.len() != 8 {
            return Err(value);
        }
        if value[0] != RTS_MUX {
            return Err(value);
        }
        Ok(Self {
            total_size: crate::bytes::u16_from_le(value[1], value[2]),
            total_packets: value[3],
            max_packets_per_response: read_limit(value[4]),
            pgn: read_pgn(value),
        })
    }
}

impl From<RequestToSend> for [u8; 8] {
    fn from(val: RequestToSend) -> (r: [u8; 8])
        ensures
            r@ == rts_bytes(val@),
    {
        let total_size = crate::bytes::u16_to_le(val.total_size);
        let pgn = write_pgn(val.pgn);
        let r = [
            RTS_MUX,
            total_size[0],
            total_size[1],
            val.total_packets,
            write_limit(val.max_packets_per_response),
            pgn[0],
            pgn[1],
            pgn[2],
        ];
        assert(r@ =~= rts_bytes(val@));
        r
    }
}

impl FromSpecImpl<RequestToSend> for [u8; 8] {
    open spec fn obeys_from_spec() -> bool {
        true
    }

    closed spec fn from_spec(val: RequestToSend) -> [u8; 8] {
        let b = rts_bytes(val@);
        [b[0], b[1], b[2], b[3], b[4], b[5], b[6], b[7]]
    }
}

/// Clear to send (TP.CM_CTS) message.
#[derive(Debug, Clone)]
pub struct ClearToSend {
    max_packets_per_response: Option<u8>,
    next_sequence: u8,
    pgn: Pgn,
}

impl View for ClearToSend {
    /// Packet limit, next sequence number, PGN.
    type V = (Option<u8>, u8, Pgn);

    closed spec fn view(&self) -> (Option<u8>, u8, Pgn) {
        (self.max_packets_per_response, self.next_sequence, self.pgn)
    }
}

/// The bytes of a TP.CM_CTS message.
pub open spec fn cts_bytes(v: (Option<u8>, u8, Pgn)) -> Seq<u8> {
    seq![CTS_MUX, limit_byte(v.0), v.1, 0xFFu8, 0xFFu8] + pgn_bytes(v.2)
}

/// The fields a TP.CM_CTS message carries.
pub open spec fn cts_fields(b: Seq<u8>) -> (Option<u8>, u8, Pgn) {
    (limit_of(b[1]), b[2], pgn_at(b))
}

impl ClearToSend {
    /// Create a new CTS message.
    pub fn new(max_packets_per_response: Option<u8>, next_sequence: u8, pgn: Pgn) -> (r: Self)
        ensures
            r@ == (max_packets_per_response, next_sequence, pgn),
    {
        Self { max_packets_per_response, next_sequence, pgn }
    }

    /// Number of packets that may be sent.
    pub fn max_packets_per_response(&self) -> (r: Option<u8>)
        ensures
            r == self@.0,
    {
        self.max_packets_per_response
    }

    /// Next sequence number.
    pub fn next_sequence(&self) -> (r: u8)
        ensures
            r == self@.1,
    {
        self.next_sequence
    }

    /// Transfer contents PGN.
    pub fn pgn(&self) -> (r: Pgn)
        ensures
            r == self@.2,
    {
        self.pgn
    }

    /// Parse a TP.CM_CTS message: 8 bytes with control byte 17; any other
    /// slice is handed back.
    pub fn try_from<'a>(value: &'a [u8]) -> (r: Result<Self, &'a [u8]>)
        ensures
            r is Ok <==> value@.len() == 8 && value@[0] == CTS_MUX,
            r matches Ok(m) ==> m@ == cts_fields(value@),
            r matches Err(e) ==> e@ == value@,
    {
        if value.len() != 8 {
            return Err(value);
        }
        if value[0] != CTS_MUX {
            return Err(value);
        }
        let pgn = read_pgn(value);
        Ok(Self { max_packets_per_response: read_limit(value[1]), next_sequence: value[2], pgn })
    }
}

impl From<&ClearToSend> for [u8; 8] {
    fn from(value: &ClearToSend) -> (r: [u8; 8])
        ensures
            r@ == cts_bytes(value@),
    {
        let pgn = write_pgn(value.pgn);
        let r = [
            CTS_MUX,
            write_limit(value.max_packets_per_response),
            value.next_sequence,
            0xFF,
            0xFF,
            pgn[0],
            pgn[1],
            pgn[2],
        ];
        assert(r@ =~= cts_bytes(value@));
        r
    }
}

impl FromSpecImpl<&ClearToSend> for [u8; 8] {
    open spec fn obeys_from_spec() -> bool {
        true
    }

    closed spec fn from_spec(value: &ClearToSend) -> [u8; 8] {
        let b = cts_bytes(value@);
        [b[0], b[1], b[2], b[3], b[4], b[5], b[6], b[7]]
    }
}

/// End of message acknowledge (TP.CM_EndOfMsgAck) message.
#[derive(Debug, Clone)]
pub struct EndOfMessageAck {
    total_size: u16,
    total_packets: u8,
    pgn: Pgn,
}

impl View for EndOfMessageAck {
    /// Total size, total packets, PGN.
    type V = (u16, u8, Pgn);

    closed spec fn view(&self) -> (u16, u8, Pgn) {
        (self.total_size, self.total_packets, self.pgn)
    }
}

/// The bytes of a TP.CM_EndOfMsgAck message.
pub open spec fn eom_bytes(v: (u16, u8, Pgn)) -> Seq<u8> {
    seq![EOM_MUX] + le16_bytes(v.0) + seq![v.1, 0xFFu8] + pgn_bytes(v.2)
}

/// The fields a TP.CM_EndOfMsgAck message carries.
pub open spec fn eom_fields(b: Seq<u8>) -> (u16, u8, Pgn) {
    (le16(b[1], b[2]) as u16, b[3], pgn_at(b))
}

impl EndOfMessageAck {
    /// Create a new end of message acknowledge message.
    pub fn new(total_size: u16, total_packets: u8, pgn: Pgn) -> (r: Self)
        ensures
            r@ == (total_size, total_packets, pgn),
    {
        Self { total_size, total_packets, pgn }
    }

    /// Total message size in bytes.
    pub fn total_size(&self) -> (r: u16)
        ensures
            r == self@.0,
    {
        self.total_size
    }

    /// Total number of packets transferred.
    pub fn total_packets(&self) -> (r: u8)
        ensures
            r == self@.1,
    {
        self.total_packets
    }

    /// Transfer contents PGN.
    pub fn pgn(&self) -> (r: Pgn)
        ensures
            r == self@.2,
    {
        self.pgn
    }

    /// Parse a TP.CM_EndOfMsgAck message: 8 bytes with control byte 19; any
    /// other slice is handed back.
    pub fn try_from<'a>(value: &'a [u8]) -> (r: Result<Self, &'a [u8]>)
        ensures
            r is Ok <==> value@.len() == 8 && value@[0] == EOM_MUX,
            r matches Ok(m) ==> m@ == eom_fields(value@),
            r matches Err(e) ==> e@ == value@,
    {
        if value.len() != 8 {
            return Err(value);
        }
        if value[0] != EOM_MUX {
            return Err(value);
        }
        let total_size = crate::bytes::u16_from_le(value[1], value[2]);
        let total_packets = value[3];
        let pgn = read_pgn(value);
        Ok(Self { total_size, total_packets, pgn })
    }
}

impl From<&EndOfMessageAck> for [u8; 8] {
    fn from(value: &EndOfMessageAck) -> (r: [u8; 8])
        ensures
            r@ == eom_bytes(value@),
    {
        let total_size = crate::bytes::u16_to_le(value.total_size);
        let pgn = write_pgn(value.pgn);
        let r = [EOM_MUX, total_size[0], total_size[1], value.total_packets, 0xFF, pgn[0], pgn[1], pgn[2]];
        assert(r@ =~= eom_bytes(value@));
        r
    }
}

impl FromSpecImpl<&EndOfMessageAck> for [u8; 8] {
    open spec fn obeys_from_spec() -> bool {
        true
    }

    closed spec fn from_spec(value: &EndOfMessageAck) -> [u8; 8] {
        let b = eom_bytes(value@);
        [b[0], b[1], b[2], b[3], b[4], b[5], b[6], b[7]]
    }
}

/// Abort reason.
///
/// See J1939-21 table 6.
#[derive(Debug, Clone, Copy, PartialEq, Eq, Structural)]
pub enum AbortReason {
    /// Already in one or more connection managed sessions and cannot support another.
    MaxConnections,
    /// System resources were needed for another task, so this connection managed session was terminated.
    CanceledBySystem,
    /// A timeout occurred, and this is the connection abort to close the session.
    Timeout,
    /// CTS messages received when data transfer is in progress.
    CtsWhileDataTransfer,
    /// Maximum retransmit request limit reached.
    RetransmitLimitReached,
    /// Unexpected data transfer packet.
    UnexpectedDataTransfer,
    /// Bad sequence number (software cannot recover).
    BadSequenceNumber,
    /// Duplicate sequence number (software cannot recover).
    DuplicateSequenceNumber,
    /// Total Message Size is greater than 1785 bytes.
    MessageTooLarge,
    /// If a Connection Abort reason is identified that is not listed in the table use code 250.
    Custom,
}

/// The number of an abort reason.
pub open spec fn abort_reason_value(r: AbortReason) -> u8 {
    match r {
        AbortReason::MaxConnections => 1,
        AbortReason::CanceledBySystem => 2,
        AbortReason::Timeout => 3,
        AbortReason::CtsWhileDataTransfer => 4,
        AbortReason::RetransmitLimitReached => 5,
        AbortReason::UnexpectedDataTransfer => 6,
        AbortReason::BadSequenceNumber => 7,
        AbortReason::DuplicateSequenceNumber => 8,
        AbortReason::MessageTooLarge => 9,
        AbortReason::Custom => 250,
    }
}

/// The abort reason numbered `v`, if any.
pub open spec fn abort_reason_of(v: u8) -> Option<AbortReason> {
    if v == 1 {
        Some(AbortReason::MaxConnections)
    } else if v == 2 {
        Some(AbortReason::CanceledBySystem)
    } else if v == 3 {
        Some(AbortReason::Timeout)
    } else if v == 4 {
        Some(AbortReason::CtsWhileDataTransfer)
    } else if v == 5 {
        Some(AbortReason::RetransmitLimitReached)
    } else if v == 6 {
        Some(AbortReason::UnexpectedDataTransfer)
    } else if v == 7 {
        Some(AbortReason::BadSequenceNumber)
    } else if v == 8 {
        Some(AbortReason::DuplicateSequenceNumber)
    } else if v == 9 {
        Some(AbortReason::MessageTooLarge)
    } else if v == 250 {
        Some(AbortReason::Custom)
    } else {
        None
    }
}

impl AbortReason {
    /// The reason numbered `value`; an unknown number is handed back.
    pub fn try_from(value: u8) -> (r: Result<AbortReason, u8>)
        ensures
            match abort_reason_of(value) {
                Some(a) => r == Ok::<AbortReason, u8>(a),
                None => r == Err::<AbortReason, u8>(value),
            },
    {
        if value == 1 {
            Ok(AbortReason::MaxConnections)
        } else if value == 2 {
            Ok(AbortReason::CanceledBySystem)
        } else if value == 3 {
            Ok(AbortReason::Timeout)
        } else if value == 4 {
            Ok(AbortReason::CtsWhileDataTransfer)
        } else if value == 5 {
            Ok(AbortReason::RetransmitLimitReached)
        } else if value == 6 {
            Ok(AbortReason::UnexpectedDataTransfer)
        } else if value == 7 {
            Ok(AbortReason::BadSequenceNumber)
        } else if value == 8 {
            Ok(AbortReason::DuplicateSequenceNumber)
        } else if value == 9 {
            Ok(AbortReason::MessageTooLarge)
        } else if value == 250 {
            Ok(AbortReason::Custom)
        } else {
            Err(value)
        }
    }
}

impl From<&AbortReason> for u8 {
    fn from(value: &AbortReason) -> (r: u8)
        ensures
            r == abort_reason_value(*value),
    {
        match value {
            AbortReason::MaxConnections => 1,
            AbortReason::CanceledBySystem => 2,
            AbortReason::Timeout => 3,
            AbortReason::CtsWhileDataTransfer => 4,
            AbortReason::RetransmitLimitReached => 5,
            AbortReason::UnexpectedDataTransfer => 6,
            AbortReason::BadSequenceNumber => 7,
            AbortReason::DuplicateSequenceNumber => 8,
            AbortReason::MessageTooLarge => 9,
            AbortReason::Custom => 250,
        }
    }
}

impl FromSpecImpl<&AbortReason> for u8 {
    open spec fn obeys_from_spec() -> bool {
        true
    }

    open spec fn from_spec(value: &AbortReason) -> u8 {
        abort_reason_value(*value)
    }
}

/// Every reason survives conversion to its number and back.
pub proof fn lemma_abort_reason_roundtrip(r: AbortReason)
    ensures
        abort_reason_of(abort_reason_value(r)) == Some(r),
{
}

/// Abort message sender role.
#[derive(Debug, Clone, Copy, PartialEq, Eq, Structural)]
pub enum AbortSenderRole {
    Sender,
    Receiver,
    Reserved,
    NotSpecified,
}

/// The number of a sender role.
pub open spec fn sender_role_value(r: AbortSenderRole) -> u8 {
    match r {
        AbortSenderRole::Sender => 0,
        AbortSenderRole::Receiver => 1,
        AbortSenderRole::Reserved => 2,
        AbortSenderRole::NotSpecified => 3,
    }
}

/// The sender role numbered `v`, if any.
pub open spec fn sender_role_of(v: u8) -> Option<AbortSenderRole> {
    if v == 0 {
        Some(AbortSenderRole::Sender)
    } else if v == 1 {
        Some(AbortSenderRole::Receiver)
    } else if v == 2 {
        Some(AbortSenderRole::Reserved)
    } else if v == 3 {
        Some(AbortSenderRole::NotSpecified)
    } else {
        None
    }
}

impl AbortSenderRole {
    /// The role numbered `value`; an unknown number is handed back.
    pub fn try_from(value: u8) -> (r: Result<AbortSenderRole, u8>)
        ensures
            match sender_role_of(value) {
                Some(a) => r == Ok::<AbortSenderRole, u8>(a),
                None => r == Err::<AbortSenderRole, u8>(value),
            },
    {
        if value == 0 {
            Ok(AbortSenderRole::Sender)
        } else if value == 1 {
            Ok(AbortSenderRole::Receiver)
        } else if value == 2 {
            Ok(AbortSenderRole::Reserved)
        } else if value == 3 {
            Ok(AbortSenderRole::NotSpecified)
        } else {
            Err(value)
        }
    }
}

impl From<&AbortSenderRole> for u8 {
    fn from(value: &AbortSenderRole) -> (r: u8)
        ensures
            r == sender_role_value(*value),
    {
        match value {
            AbortSenderRole::Sender => 0,
            AbortSenderRole::Receiver => 1,
            AbortSenderRole::Reserved => 2,
            AbortSenderRole::NotSpecified => 3,
        }
    }
}

impl FromSpecImpl<&AbortSenderRole> for u8 {
    open spec fn obeys_from_spec() -> bool {
        true
    }

    open spec fn from_spec(value: &AbortSenderRole) -> u8 {
        sender_role_value(*value)
    }
}

/// Every sender role survives conversion to its number and back.
pub proof fn lemma_sender_role_roundtrip(r: AbortSenderRole)
    ensures
        sender_role_of(sender_role_value(r)) == Some(r),
{
}

/// Connection abort (TP.Conn_Abort) message.
#[derive(Debug, Clone)]
pub struct ConnectionAbort {
    reason: AbortReason,
    sender_role: AbortSenderRole,
    pgn: Pgn,
}

impl View for ConnectionAbort {
    /// Reason, sender role, PGN.
    type V = (AbortReason, AbortSenderRole, Pgn);

    closed spec fn view(&self) -> (AbortReason, AbortSenderRole, Pgn) {
        (self.reason, self.sender_role, self.pgn)
    }
}

/// The bytes of a TP.Conn_Abort message: the role in bits 0 and 1 of byte
/// 2, the other bits set.
pub open spec fn abort_bytes(v: (AbortReason, AbortSenderRole, Pgn)) -> Seq<u8> {
    seq![ABORT_MUX, abort_reason_value(v.0), sender_role_value(v.1) | 0b11111100u8, 0xFFu8, 0xFFu8]
        + pgn_bytes(v.2)
}

/// The fields a TP.Conn_Abort message carries: an unknown reason reads as
/// `Custom`; the role is bits 0 and 1 of byte 2.
pub open spec fn abort_fields(b: Seq<u8>) -> (AbortReason, AbortSenderRole, Pgn) {
    (
        match abort_reason_of(b[1]) {
            Some(r) => r,
            None => AbortReason::Custom,
        },
        match sender_role_of(b[2] & 0b11u8) {
            Some(r) => r,
            None => AbortSenderRole::NotSpecified,
        },
        pgn_at(b),
    )
}

impl ConnectionAbort {
    /// Create a new connection abort message.
    pub fn new(reason: AbortReason, sender_role: AbortSenderRole, pgn: Pgn) -> (r: Self)
        ensures
            r@ == (reason, sender_role, pgn),
    {
        Self { reason, sender_role, pgn }
    }

    /// Abort reason.
    pub fn reason(&self) -> (r: AbortReason)
        ensures
            r == self@.0,
    {
        self.reason
    }

    /// Abort sender role.
    pub fn sender_role(&self) -> (r: AbortSenderRole)
        ensures
            r == self@.1,
    {
        self.sender_role
    }

    /// Transfer contents PGN.
    pub fn pgn(&self) -> (r: Pgn)
        ensures
            r == self@.2,
    {
        self.pgn
    }

    /// Parse a TP.Conn_Abort message: 8 bytes with control byte 255; any
    /// other slice is handed back.
    pub fn try_from<'a>(value: &'a [u8]) -> (r: Result<Self, &'a [u8]>)
        ensures
            r is Ok <==> value@.len() == 8 && value@[0] == ABORT_MUX,
            r matches Ok(m) ==> m@ == abort_fields(value@),
            r matches Err(e) ==> e@ == value@,
    {
        if value.len() != 8 {
            return Err(value);
        }
        if value[0] != ABORT_MUX {
            return Err(value);
        }
        let reason = match AbortReason::try_from(value[1]) {
            Ok(r) => r,
            Err(_) => AbortReason::Custom,
        };
        let sender_role = match AbortSenderRole::try_from(value[2] & 0b00000011) {
            Ok(r) => r,
            Err(_) => AbortSenderRole::NotSpecified,
        };
        Ok(Self { reason, sender_role, pgn: read_pgn(value) })
    }
}

impl From<&ConnectionAbort> for [u8; 8] {
    fn from(value: &ConnectionAbort) -> (r: [u8; 8])
        ensures
            r@ == abort_bytes(value@),
    {
        let pgn = write_pgn(value.pgn);
        let r = [
            ABORT_MUX,
            u8::from(&value.reason),
            u8::from(&value.sender_role) | 0b11111100,
            0xFF,
            0xFF,
            pgn[0],
            pgn[1],
            pgn[2],
        ];
        assert(r@ =~= abort_bytes(value@));
        r
    }
}

impl FromSpecImpl<&ConnectionAbort> for [u8; 8] {
    open spec fn obeys_from_spec() -> bool {
        true
    }

    closed spec fn from_spec(value: &ConnectionAbort) -> [u8; 8] {
        let b = abort_bytes(value@);
        [b[0], b[1], b[2], b[3], b[4], b[5], b[6], b[7]]
    }
}

/// Data transfer (TP.DT) message.
#[derive(Debug, Clone)]
pub struct DataTransfer {
    sequence: u8,
    data: [u8; 7],
}

impl View for DataTransfer {
    /// Sequence number and the 7 payload bytes.
    type V = (u8, Seq<u8>);

    closed spec fn view(&self) -> (u8, Seq<u8>) {
        (self.sequence, self.data@)
    }
}

impl DataTransfer {
    /// Every payload is 7 bytes long.
    pub proof fn lemma_len(&self)
        ensures
            self@.1.len() == 7,
    {
    }

    /// Create a new data transfer message.
    ///
    /// The sequence number starts at 1 and continues up to the maximum of 255.
    ///
    /// Data with less than 7 bytes should have the remaining bytes padded with
    /// 0xFF.
    pub fn new(sequence: u8, data: [u8; 7]) -> (r: Self)
        ensures
            r@ == (sequence, data@),
    {
        Self { sequence, data }
    }

    /// Packet sequence number.
    pub fn sequence(&self) -> (r: u8)
        ensures
            r == self@.0,
    {
        self.sequence
    }

    /// Payload data.
    pub fn data(&self) -> (r: [u8; 7])
        ensures
            r@ == self@.1,
    {
        self.data
    }

    /// Parse a TP.DT message: exactly 8 bytes; any other slice is handed back.
    pub fn try_from<'a>(value: &'a [u8]) -> (r: Result<Self, &'a [u8]>)
        ensures
            r is Ok <==> value@.len() == 8,
            r matches Ok(m) ==> m@ == (value@[0], value@.subrange(1, 8)),
            r matches Err(e) ==> e@ == value@,
    {
        if value.len() != 8 {
            return Err(value);
        }
        let data = [value[1], value[2], value[3], value[4], value[5], value[6], value[7]];
        assert(data@ =~= value@.subrange(1, 8));
        Ok(Self { sequence: value[0], data })
    }
}

impl From<&DataTransfer> for [u8; 8] {
    fn from(value: &DataTransfer) -> (r: [u8; 8])
        ensures
            r@ == seq![value@.0] + value@.1,
    {
        let r = [
            value.sequence,
            value.data[0],
            value.data[1],
            value.data[2],
            value.data[3],
            value.data[4],
            value.data[5],
            value.data[6],
        ];
        assert(r@ =~= seq![value@.0] + value@.1);
        r
    }
}

impl FromSpecImpl<&DataTransfer> for [u8; 8] {
    open spec fn obeys_from_spec() -> bool {
        true
    }

    closed spec fn from_spec(value: &DataTransfer) -> [u8; 8] {
        let b = seq![value@.0] + value@.1;
        [b[0], b[1], b[2], b[3], b[4], b[5], b[6], b[7]]
    }
}

/// An RTS message reads back as written when its PGN has 24 bits and it
/// sets no limit of 255.
pub proof fn lemma_rts_roundtrip(v: (u16, u8, Option<u8>, Pgn))
    requires
        pgn_value(v.3) <= 0xFF_FFFF,
        v.2 != Some(255u8),
    ensures
        ({
            let f = rts_fields(rts_bytes(v));
            f.0 == v.0 && f.1 == v.1 && f.2 == v.2 && pgn_value(f.3) == pgn_value(v.3)
        }),
{
    let b = rts_bytes(v);
    assert(b.subrange(5, 8) =~= pgn_bytes(v.3));
    lemma_pgn_bytes(v.3, b);
}

/// A CTS message reads back as written when its PGN has 24 bits and it
/// sets no limit of 255.
pub proof fn lemma_cts_roundtrip(v: (Option<u8>, u8, Pgn))
    requires
        pgn_value(v.2) <= 0xFF_FFFF,
        v.0 != Some(255u8),
    ensures
        ({
            let f = cts_fields(cts_bytes(v));
            f.0 == v.0 && f.1 == v.1 && pgn_value(f.2) == pgn_value(v.2)
        }),
{
    let b = cts_bytes(v);
    assert(b.subrange(5, 8) =~= pgn_bytes(v.2));
    lemma_pgn_bytes(v.2, b);
}

/// An end-of-message acknowledgement reads back as written when its PGN has
/// 24 bits.
pub proof fn lemma_eom_roundtrip(v: (u16, u8, Pgn))
    requires
        pgn_value(v.2) <= 0xFF_FFFF,
    ensures
        ({
            let f = eom_fields(eom_bytes(v));
            f.0 == v.0 && f.1 == v.1 && pgn_value(f.2) == pgn_value(v.2)
        }),
{
    let b = eom_bytes(v);
    assert(b.subrange(5, 8) =~= pgn_bytes(v.2));
    lemma_pgn_bytes(v.2, b);
}

/// A connection abort reads back with the same reason and role, and the
/// same PGN when it has 24 bits.
pub proof fn lemma_abort_roundtrip(v: (AbortReason, AbortSenderRole, Pgn))
    requires
        pgn_value(v.2) <= 0xFF_FFFF,
    ensures
        ({
            let f = abort_fields(abort_bytes(v));
            f.0 == v.0 && f.1 == v.1 && pgn_value(f.2) == pgn_value(v.2)
        }),
{
    let b = abort_bytes(v);
    assert(b.subrange(5, 8) =~= pgn_bytes(v.2));
    lemma_pgn_bytes(v.2, b);
    let rv = sender_role_value(v.1);
    assert((rv | 0b11111100u8) & 0b11u8 == rv) by (bit_vector)
        requires
            rv <= 3,
    ;
}

/// A data transfer message reads back as written.
pub proof fn lemma_data_transfer_roundtrip(seq: u8, data: Seq<u8>)
    requires
        data.len() == 7,
    ensures
        ({
            let b = seq![seq] + data;
            b[0] == seq && b.subrange(1, 8) == data
        }),
{
    assert((seq![seq] + data).subrange(1, 8) =~= data);
}

} // verus!
