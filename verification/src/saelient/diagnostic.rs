//! Diagnostics (J1939-73)

use crate::bytes::{le16, le32};
use vstd::prelude::*;
use vstd::std_specs::convert::FromSpecImpl;

verus! {

/// Memory access request command.
///
/// Two commands are equal when their numbers are.
#[derive(Debug, Clone, Copy)]
pub enum Command {
    Erase,
    Read,
    Write,
    StatusRequest,
    OperationCompleted,
    OperationFailed,
    BootLoad,
    EdcpGeneration,
    Other(u8),
}

/// The number of a command.
pub open spec fn command_value(c: Command) -> u8 {
    match c {
        Command::Erase => 0,
        Command::Read => 1,
        Command::Write => 2,
        Command::StatusRequest => 3,
        Command::OperationCompleted => 4,
        Command::OperationFailed => 5,
        Command::BootLoad => 6,
        Command::EdcpGeneration => 7,
        Command::Other(v) => v,
    }
}

/// The command of a number: the named command for 0 to 7.
pub open spec fn command_from_value(v: u8) -> Command {
    if v == 0 {
        Command::Erase
    } else if v == 1 {
        Command::Read
    } else if v == 2 {
        Command::Write
    } else if v == 3 {
        Command::StatusRequest
    } else if v == 4 {
        Command::OperationCompleted
    } else if v == 5 {
        Command::OperationFailed
    } else if v == 6 {
        Command::BootLoad
    } else if v == 7 {
        Command::EdcpGeneration
    } else {
        Command::Other(v)
    }
}

impl From<Command> for u8 {
    fn from(value: Command) -> (r: u8) {
        match value {
            Command::Erase => 0,
            Command::Read => 1,
            Command::Write => 2,
            Command::StatusRequest => 3,
            Command::OperationCompleted => 4,
            Command::OperationFailed => 5,
            Command::BootLoad => 6,
            Command::EdcpGeneration => 7,
            Command::Other(v) => v,
        }
    }
}

impl FromSpecImpl<Command> for u8 {
    open spec fn obeys_from_spec() -> bool {
        true
    }

    open spec fn from_spec(c: Command) -> u8 {
        command_value(c)
    }
}

impl From<u8> for Command {
    fn from(value: u8) -> (r: Command) {
        if value == 0 {
            Command::Erase
        } else if value == 1 {
            Command::Read
        } else if value == 2 {
            Command::Write
        } else if value == 3 {
            Command::StatusRequest
        } else if value == 4 {
            Command::OperationCompleted
        } else if value == 5 {
            Command::OperationFailed
        } else if value == 6 {
            Command::BootLoad
        } else if value == 7 {
            Command::EdcpGeneration
        } else {
            Command::Other(value)
        }
    }
}

impl FromSpecImpl<u8> for Command {
    open spec fn obeys_from_spec() -> bool {
        true
    }

    open spec fn from_spec(v: u8) -> Command {
        command_from_value(v)
    }
}

impl PartialEq for Command {
    fn eq(&self, other: &Command) -> (r: bool) {
        u8::from(*self) == u8::from(*other)
    }
}

impl vstd::std_specs::cmp::PartialEqSpecImpl for Command {
    open spec fn obeys_eq_spec() -> bool {
        true
    }

    open spec fn eq_spec(&self, other: &Command) -> bool {
        command_value(*self) == command_value(*other)
    }
}

impl Eq for Command {
}

/// A number survives conversion to a command and back.
pub proof fn lemma_command_value_roundtrip(v: u8)
    ensures
        command_value(command_from_value(v)) == v,
{
}

/// Direct or spatial memory addressing.
#[derive(Debug, Clone, Copy, PartialEq, Eq, Structural)]
pub enum Pointer {
    Direct(u32),
    Spatial(u32),
}

/// Byte 1 of a memory access message: length bits 8 to 10 in bits 5 to 7,
/// the command or status in bits 1 to 3 (shifted left by one, high bits
/// dropped), and the spatial-pointer flag in bit 4.
pub open spec fn mode_byte(length: u16, code: u8, spatial: bool) -> u8 {
    (((length / 256) as u8) << 5u8) | (code << 1u8) | ((if spatial { 1u8 } else { 0u8 }) << 4u8)
}

/// The length field of a memory access message.
pub open spec fn msg_length(b: Seq<u8>) -> u16 {
    le16(b[0], (b[1] >> 5u8) & 7u8) as u16
}

/// The command or status number of a memory access message.
pub open spec fn msg_code(b: Seq<u8>) -> u8 {
    (b[1] >> 1u8) & 7u8
}

/// The bytes of a memory access request.
pub open spec fn request_bytes(command: Command, pointer: Pointer, length: u16, key: u16) -> Seq<u8> {
    let (value, spatial) = match pointer {
        Pointer::Direct(v) => (v, false),
        Pointer::Spatial(v) => (v, true),
    };
    seq![(length % 256) as u8, mode_byte(length, command_value(command), spatial)]
        + crate::bytes::le32_bytes(value) + crate::bytes::le16_bytes(key)
}

/// The pointer of a memory access request.
pub open spec fn request_pointer(b: Seq<u8>) -> Pointer {
    let v = le32(b[2], b[3], b[4], b[5]) as u32;
    if b[1] & 0x10u8 != 0 {
        Pointer::Spatial(v)
    } else {
        Pointer::Direct(v)
    }
}

/// DM14 - Memory Access Request
#[derive(Debug, Clone, PartialEq, Eq)]
pub struct MemoryAccessRequest {
    raw: [u8; 8],
}

impl View for MemoryAccessRequest {
    type V = Seq<u8>;

    closed spec fn view(&self) -> Seq<u8> {
        self.raw@
    }
}

impl MemoryAccessRequest {
    /// Every request is 8 bytes long.
    pub proof fn lemma_len(&self)
        ensures
            self@.len() == 8,
    {
    }

    /// Create a new memory access request (`length` at most 2047).
    pub fn new(command: Command, pointer: Pointer, length: u16, key_or_user_level: u16) -> (r: Self)
        requires
            length <= 0b11111111111,
        ensures
            r@ == request_bytes(command, pointer, length, key_or_user_level),
    {
        let (pointer_value, is_spatial) = match pointer {
            Pointer::Direct(value) => (value, false),
            Pointer::Spatial(value) => (value, true),
        };
        let spatial: u8 = if is_spatial { 1 } else { 0 };
        let hi = (length / 256) as u8;
        let b1 = (hi << 5u8) | (u8::from(command) << 1u8) | (spatial << 4u8);
        let p = crate::bytes::u32_to_le(pointer_value);
        let k = crate::bytes::u16_to_le(key_or_user_level);
        let raw = [(length % 256) as u8, b1, p[0], p[1], p[2], p[3], k[0], k[1]];
        let r = Self { raw };
        assert(r@ =~= request_bytes(command, pointer, length, key_or_user_level));
        r
    }

    /// The number of bytes to apply the memory operation to.
    pub fn length(&self) -> (r: u16)
        ensures
            r == msg_length(self@),
    {
        crate::bytes::u16_from_le(self.raw[0], (self.raw[1] >> 5u8) & 0b111)
    }

    /// The command type.
    pub fn command(&self) -> (r: Command)
        ensures
            r == command_from_value(msg_code(self@)),
    {
        Command::from((self.raw[1] >> 1u8) & 0b111)
    }

    /// Memory address or object identifier.
    pub fn pointer(&self) -> (r: Pointer)
        ensures
            r == request_pointer(self@),
    {
        let value = crate::bytes::u32_from_le(self.raw[2], self.raw[3], self.raw[4], self.raw[5]);
        if self.raw[1] & 0b10000 != 0 {
            Pointer::Spatial(value)
        } else {
            Pointer::Direct(value)
        }
    }

    /// Security key or user level, depending on context.
    pub fn key_or_user_level(&self) -> (r: u16)
        ensures
            r == le16(self@[6], self@[7]),
    {
        crate::bytes::u16_from_le(self.raw[6], self.raw[7])
    }

    /// A request of exactly 8 bytes; any other slice is handed back.
    pub fn try_from<'a>(value: &'a [u8]) -> (r: Result<Self, &'a [u8]>)
        ensures
            r is Ok <==> value@.len() == 8,
            r matches Ok(req) ==> req@ == value@,
            r matches Err(e) ==> e@ == value@,
    {
        match bytes8(value) {
            Some(raw) => Ok(Self { raw }),
            None => Err(value),
        }
    }
}

impl From<&MemoryAccessRequest> for [u8; 8] {
    fn from(req: &MemoryAccessRequest) -> (r: [u8; 8])
        ensures
            r@ == req@,
    {
        req.raw
    }
}

impl FromSpecImpl<&MemoryAccessRequest> for [u8; 8] {
    open spec fn obeys_from_spec() -> bool {
        true
    }

    closed spec fn from_spec(req: &MemoryAccessRequest) -> [u8; 8] {
        req.raw
    }
}

/// The 8 bytes of `value`, or `None` when it is not 8 bytes long.
pub fn bytes8(value: &[u8]) -> (r: Option<[u8; 8]>)
    ensures
        r is Some <==> value@.len() == 8,
        r matches Some(a) ==> a@ == value@,
{
    if value.len() != 8 {
        return None;
    }
    let a = [value[0], value[1], value[2], value[3], value[4], value[5], value[6], value[7]];
    assert(a@ =~= value@);
    Some(a)
}

/// Memory access response status.
///
/// Two statuses are equal when their numbers are.
#[derive(Debug, Clone, Copy)]
pub enum Status {
    Proceed,
    Busy,
    OperationCompleted,
    OperationFailed,
    Other(u8),
}

/// The number of a status.
pub open spec fn status_value(s: Status) -> u8 {
    match s {
        Status::Proceed => 0,
        Status::Busy => 1,
        Status::OperationCompleted => 4,
        Status::OperationFailed => 5,
        Status::Other(o) => o,
    }
}

/// The status of a number: the named status for 0, 1, 4 and 5.
pub open spec fn status_from_value(v: u8) -> Status {
    if v == 0 {
        Status::Proceed
    } else if v == 1 {
        Status::Busy
    } else if v == 4 {
        Status::OperationCompleted
    } else if v == 5 {
        Status::OperationFailed
    } else {
        Status::Other(v)
    }
}

impl From<Status> for u8 {
    fn from(value: Status) -> (r: u8) {
        match value {
            Status::Proceed => 0,
            Status::Busy => 1,
            Status::OperationCompleted => 4,
            Status::OperationFailed => 5,
            Status::Other(o) => o,
        }
    }
}

impl FromSpecImpl<Status> for u8 {
    open spec fn obeys_from_spec() -> bool {
        true
    }

    open spec fn from_spec(s: Status) -> u8 {
        status_value(s)
    }
}

impl From<u8> for Status {
    fn from(value: u8) -> (r: Status) {
        if value == 0 {
            Status::Proceed
        } else if value == 1 {
            Status::Busy
        } else if value == 4 {
            Status::OperationCompleted
        } else if value == 5 {
            Status::OperationFailed
        } else {
            Status::Other(value)
        }
    }
}

impl FromSpecImpl<u8> for Status {
    open spec fn obeys_from_spec() -> bool {
        true
    }

    open spec fn from_spec(v: u8) -> Status {
        status_from_value(v)
    }
}

impl PartialEq for Status {
    fn eq(&self, other: &Status) -> (r: bool) {
        u8::from(*self) == u8::from(*other)
    }
}

impl vstd::std_specs::cmp::PartialEqSpecImpl for Status {
    open spec fn obeys_eq_spec() -> bool {
        true
    }

    open spec fn eq_spec(&self, other: &Status) -> bool {
        status_value(*self) == status_value(*other)
    }
}

impl Eq for Status {
}

/// A number survives conversion to a status and back.
pub proof fn lemma_status_value_roundtrip(v: u8)
    ensures
        status_value(status_from_value(v)) == v,
{
}

/// Error indicator state.
///
/// Two indicators are equal when their numbers are.
#[derive(Debug, Clone, Copy)]
pub enum ErrorIndicator {
    NoError,
    NotIdentified,
    BusyForSomeoneElse,
    BusyErase,
    BusyRead,
    BusyWrite,
    BusyStatus,
    BusyBootLoad,
    BusyEdcpGeneration,
    BusyUnspecified,
    EdcPrameterNotCorrect,
    RamVerifyOnWrite,
    FlashVerifyOnWrite,
    PromVerifyOnWrite,
    InternalFailure,
    AddressingGeneral,
    AddressingBoundary,
    AddressingLength,
    AddressingOutOfBounds,
    AddressingRequiresEraseData,
    AddressingRequiresEraseProgram,
    AddressingRequiresTransferAndEraseProgram,
    AddressingBootLoadExecutableMemory,
    AddressingBootLoadInvalidBoundary,
    DataValueRange,
    DataNameRange,
    Security,
    SecurityInvalidPassword,
    SecurityInvalidUserLevel,
    SecurityInvalidKey,
    SecurityNotInDiagnosticMode,
    SecurityNotInDevelopmentMode,
    SecurityEngineRunning,
    SecurityNotInPark,
    AbortFromSoftwareProcess,
    TooManyRetries,
    NoResponseInTimeAllowed,
    TransportDataNotInitiated,
    TransportDataNotCompleted,
    NoIndicatorAvailable,
    Other(u32),
}

/// The number of an error indicator.
pub open spec fn error_indicator_value(e: ErrorIndicator) -> u32 {
    match e {
        ErrorIndicator::NoError => 0x000000,
        ErrorIndicator::NotIdentified => 0x000001,
        ErrorIndicator::BusyForSomeoneElse => 0x000002,
        ErrorIndicator::BusyErase => 0x000010,
        ErrorIndicator::BusyRead => 0x000011,
        ErrorIndicator::BusyWrite => 0x000012,
        ErrorIndicator::BusyStatus => 0x000013,
        ErrorIndicator::BusyBootLoad => 0x000016,
        ErrorIndicator::BusyEdcpGeneration => 0x000017,
        ErrorIndicator::BusyUnspecified => 0x00001F,
        ErrorIndicator::EdcPrameterNotCorrect => 0x000020,
        ErrorIndicator::RamVerifyOnWrite => 0x000021,
        ErrorIndicator::FlashVerifyOnWrite => 0x000022,
        ErrorIndicator::PromVerifyOnWrite => 0x000023,
        ErrorIndicator::InternalFailure => 0x000024,
        ErrorIndicator::AddressingGeneral => 0x000100,
        ErrorIndicator::AddressingBoundary => 0x000101,
        ErrorIndicator::AddressingLength => 0x000102,
        ErrorIndicator::AddressingOutOfBounds => 0x000103,
        ErrorIndicator::AddressingRequiresEraseData => 0x000104,
        ErrorIndicator::AddressingRequiresEraseProgram => 0x000105,
        ErrorIndicator::AddressingRequiresTransferAndEraseProgram => 0x000106,
        ErrorIndicator::AddressingBootLoadExecutableMemory => 0x000107,
        ErrorIndicator::AddressingBootLoadInvalidBoundary => 0x000108,
        ErrorIndicator::DataValueRange => 0x000109,
        ErrorIndicator::DataNameRange => 0x00010A,
        ErrorIndicator::Security => 0x001000,
        ErrorIndicator::SecurityInvalidPassword => 0x001001,
        ErrorIndicator::SecurityInvalidUserLevel => 0x001002,
        ErrorIndicator::SecurityInvalidKey => 0x001003,
        ErrorIndicator::SecurityNotInDiagnosticMode => 0x001004,
        ErrorIndicator::SecurityNotInDevelopmentMode => 0x001005,
        ErrorIndicator::SecurityEngineRunning => 0x001006,
        ErrorIndicator::SecurityNotInPark => 0x001007,
        ErrorIndicator::AbortFromSoftwareProcess => 0x010000,
        ErrorIndicator::TooManyRetries => 0x010001,
        ErrorIndicator::NoResponseInTimeAllowed => 0x010002,
        ErrorIndicator::TransportDataNotInitiated => 0x010003,
        ErrorIndicator::TransportDataNotCompleted => 0x010004,
        ErrorIndicator::NoIndicatorAvailable => 0xFFFFFF,
        ErrorIndicator::Other(o) => o,
    }
}

/// The error indicator of a number: the named indicator where there is one.
pub open spec fn error_indicator_from_value(v: u32) -> ErrorIndicator {
    if v == 0x000000 {
        ErrorIndicator::NoError
    } else if v == 0x000001 {
        ErrorIndicator::NotIdentified
    } else if v == 0x000002 {
        ErrorIndicator::BusyForSomeoneElse
    } else if v == 0x000010 {
        ErrorIndicator::BusyErase
    } else if v == 0x000011 {
        ErrorIndicator::BusyRead
    } else if v == 0x000012 {
        ErrorIndicator::BusyWrite
    } else if v == 0x000013 {
        ErrorIndicator::BusyStatus
    } else if v == 0x000016 {
        ErrorIndicator::BusyBootLoad
    } else if v == 0x000017 {
        ErrorIndicator::BusyEdcpGeneration
    } else if v == 0x00001F {
        ErrorIndicator::BusyUnspecified
    } else if v == 0x000020 {
        ErrorIndicator::EdcPrameterNotCorrect
    } else if v == 0x000021 {
        ErrorIndicator::RamVerifyOnWrite
    } else if v == 0x000022 {
        ErrorIndicator::FlashVerifyOnWrite
    } else if v == 0x000023 {
        ErrorIndicator::PromVerifyOnWrite
    } else if v == 0x000024 {
        ErrorIndicator::InternalFailure
    } else if v == 0x000100 {
        ErrorIndicator::AddressingGeneral
    } else if v == 0x000101 {
        ErrorIndicator::AddressingBoundary
    } else if v == 0x000102 {
        ErrorIndicator::AddressingLength
    } else if v == 0x000103 {
        ErrorIndicator::AddressingOutOfBounds
    } else if v == 0x000104 {
        ErrorIndicator::AddressingRequiresEraseData
    } else if v == 0x000105 {
        ErrorIndicator::AddressingRequiresEraseProgram
    } else if v == 0x000106 {
        ErrorIndicator::AddressingRequiresTransferAndEraseProgram
    } else if v == 0x000107 {
        ErrorIndicator::AddressingBootLoadExecutableMemory
    } else if v == 0x000108 {
        ErrorIndicator::AddressingBootLoadInvalidBoundary
    } else if v == 0x000109 {
        ErrorIndicator::DataValueRange
    } else if v == 0x00010A {
        ErrorIndicator::DataNameRange
    } else if v == 0x001000 {
        ErrorIndicator::Security
    } else if v == 0x001001 {
        ErrorIndicator::SecurityInvalidPassword
    } else if v == 0x001002 {
        ErrorIndicator::SecurityInvalidUserLevel
    } else if v == 0x001003 {
        ErrorIndicator::SecurityInvalidKey
    } else if v == 0x001004 {
        ErrorIndicator::SecurityNotInDiagnosticMode
    } else if v == 0x001005 {
        ErrorIndicator::SecurityNotInDevelopmentMode
    } else if v == 0x001006 {
        ErrorIndicator::SecurityEngineRunning
    } else if v == 0x001007 {
        ErrorIndicator::SecurityNotInPark
    } else if v == 0x010000 {
        ErrorIndicator::AbortFromSoftwareProcess
    } else if v == 0x010001 {
        ErrorIndicator::TooManyRetries
    } else if v == 0x010002 {
        ErrorIndicator::NoResponseInTimeAllowed
    } else if v == 0x010003 {
        ErrorIndicator::TransportDataNotInitiated
    } else if v == 0x010004 {
        ErrorIndicator::TransportDataNotCompleted
    } else if v == 0xFFFFFF {
        ErrorIndicator::NoIndicatorAvailable
    } else {
        ErrorIndicator::Other(v)
    }
}

impl From<ErrorIndicator> for u32 {
    fn from(value: ErrorIndicator) -> (r: u32) {
        match value {
            ErrorIndicator::NoError => 0x000000,
            ErrorIndicator::NotIdentified => 0x000001,
            ErrorIndicator::BusyForSomeoneElse => 0x000002,
            ErrorIndicator::BusyErase => 0x000010,
            ErrorIndicator::BusyRead => 0x000011,
            ErrorIndicator::BusyWrite => 0x000012,
            ErrorIndicator::BusyStatus => 0x000013,
            ErrorIndicator::BusyBootLoad => 0x000016,
            ErrorIndicator::BusyEdcpGeneration => 0x000017,
            ErrorIndicator::BusyUnspecified => 0x00001F,
            ErrorIndicator::EdcPrameterNotCorrect => 0x000020,
            ErrorIndicator::RamVerifyOnWrite => 0x000021,
            ErrorIndicator::FlashVerifyOnWrite => 0x000022,
            ErrorIndicator::PromVerifyOnWrite => 0x000023,
            ErrorIndicator::InternalFailure => 0x000024,
            ErrorIndicator::AddressingGeneral => 0x000100,
            ErrorIndicator::AddressingBoundary => 0x000101,
            ErrorIndicator::AddressingLength => 0x000102,
            ErrorIndicator::AddressingOutOfBounds => 0x000103,
            ErrorIndicator::AddressingRequiresEraseData => 0x000104,
            ErrorIndicator::AddressingRequiresEraseProgram => 0x000105,
            ErrorIndicator::AddressingRequiresTransferAndEraseProgram => 0x000106,
            ErrorIndicator::AddressingBootLoadExecutableMemory => 0x000107,
            ErrorIndicator::AddressingBootLoadInvalidBoundary => 0x000108,
            ErrorIndicator::DataValueRange => 0x000109,
            ErrorIndicator::DataNameRange => 0x00010A,
            ErrorIndicator::Security => 0x001000,
            ErrorIndicator::SecurityInvalidPassword => 0x001001,
            ErrorIndicator::SecurityInvalidUserLevel => 0x001002,
            ErrorIndicator::SecurityInvalidKey => 0x001003,
            ErrorIndicator::SecurityNotInDiagnosticMode => 0x001004,
            ErrorIndicator::SecurityNotInDevelopmentMode => 0x001005,
            ErrorIndicator::SecurityEngineRunning => 0x001006,
            ErrorIndicator::SecurityNotInPark => 0x001007,
            ErrorIndicator::AbortFromSoftwareProcess => 0x010000,
            ErrorIndicator::TooManyRetries => 0x010001,
            ErrorIndicator::NoResponseInTimeAllowed => 0x010002,
            ErrorIndicator::TransportDataNotInitiated => 0x010003,
            ErrorIndicator::TransportDataNotCompleted => 0x010004,
            ErrorIndicator::NoIndicatorAvailable => 0xFFFFFF,
            ErrorIndicator::Other(o) => o,
        }
    }
}

impl FromSpecImpl<ErrorIndicator> for u32 {
    open spec fn obeys_from_spec() -> bool {
        true
    }

    open spec fn from_spec(e: ErrorIndicator) -> u32 {
        error_indicator_value(e)
    }
}

impl From<u32> for ErrorIndicator {
    fn from(value: u32) -> (r: ErrorIndicator) {
        if value == 0x000000 {
            ErrorIndicator::NoError
        } else if value == 0x000001 {
            ErrorIndicator::NotIdentified
        } else if value == 0x000002 {
            ErrorIndicator::BusyForSomeoneElse
        } else if value == 0x000010 {
            ErrorIndicator::BusyErase
        } else if value == 0x000011 {
            ErrorIndicator::BusyRead
        } else if value == 0x000012 {
            ErrorIndicator::BusyWrite
        } else if value == 0x000013 {
            ErrorIndicator::BusyStatus
        } else if value == 0x000016 {
            ErrorIndicator::BusyBootLoad
        } else if value == 0x000017 {
            ErrorIndicator::BusyEdcpGeneration
        } else if value == 0x00001F {
            ErrorIndicator::BusyUnspecified
        } else if value == 0x000020 {
            ErrorIndicator::EdcPrameterNotCorrect
        } else if value == 0x000021 {
            ErrorIndicator::RamVerifyOnWrite
        } else if value == 0x000022 {
            ErrorIndicator::FlashVerifyOnWrite
        } else if value == 0x000023 {
            ErrorIndicator::PromVerifyOnWrite
        } else if value == 0x000024 {
            ErrorIndicator::InternalFailure
        } else if value == 0x000100 {
            ErrorIndicator::AddressingGeneral
        } else if value == 0x000101 {
            ErrorIndicator::AddressingBoundary
        } else if value == 0x000102 {
            ErrorIndicator::AddressingLength
        } else if value == 0x000103 {
            ErrorIndicator::AddressingOutOfBounds
        } else if value == 0x000104 {
            ErrorIndicator::AddressingRequiresEraseData
        } else if value == 0x000105 {
            ErrorIndicator::AddressingRequiresEraseProgram
        } else if value == 0x000106 {
            ErrorIndicator::AddressingRequiresTransferAndEraseProgram
        } else if value == 0x000107 {
            ErrorIndicator::AddressingBootLoadExecutableMemory
        } else if value == 0x000108 {
            ErrorIndicator::AddressingBootLoadInvalidBoundary
        } else if value == 0x000109 {
            ErrorIndicator::DataValueRange
        } else if value == 0x00010A {
            ErrorIndicator::DataNameRange
        } else if value == 0x001000 {
            ErrorIndicator::Security
        } else if value == 0x001001 {
            ErrorIndicator::SecurityInvalidPassword
        } else if value == 0x001002 {
            ErrorIndicator::SecurityInvalidUserLevel
        } else if value == 0x001003 {
            ErrorIndicator::SecurityInvalidKey
        } else if value == 0x001004 {
            ErrorIndicator::SecurityNotInDiagnosticMode
        } else if value == 0x001005 {
            ErrorIndicator::SecurityNotInDevelopmentMode
        } else if value == 0x001006 {
            ErrorIndicator::SecurityEngineRunning
        } else if value == 0x001007 {
            ErrorIndicator::SecurityNotInPark
        } else if value == 0x010000 {
            ErrorIndicator::AbortFromSoftwareProcess
        } else if value == 0x010001 {
            ErrorIndicator::TooManyRetries
        } else if value == 0x010002 {
            ErrorIndicator::NoResponseInTimeAllowed
        } else if value == 0x010003 {
            ErrorIndicator::TransportDataNotInitiated
        } else if value == 0x010004 {
            ErrorIndicator::TransportDataNotCompleted
        } else if value == 0xFFFFFF {
            ErrorIndicator::NoIndicatorAvailable
        } else {
            ErrorIndicator::Other(value)
        }
    }
}

impl FromSpecImpl<u32> for ErrorIndicator {
    open spec fn obeys_from_spec() -> bool {
        true
    }

    open spec fn from_spec(v: u32) -> ErrorIndicator {
        error_indicator_from_value(v)
    }
}

impl PartialEq for ErrorIndicator {
    fn eq(&self, other: &ErrorIndicator) -> (r: bool) {
        u32::from(*self) == u32::from(*other)
    }
}

impl vstd::std_specs::cmp::PartialEqSpecImpl for ErrorIndicator {
    open spec fn obeys_eq_spec() -> bool {
        true
    }

    open spec fn eq_spec(&self, other: &ErrorIndicator) -> bool {
        error_indicator_value(*self) == error_indicator_value(*other)
    }
}

impl Eq for ErrorIndicator {
}

/// A number survives conversion to an error indicator and back.
pub proof fn lemma_error_indicator_value_roundtrip(v: u32)
    ensures
        error_indicator_value(error_indicator_from_value(v)) == v,
{
}

/// The bytes of a memory access response: the error indicator's low three
/// bytes, then a zero byte.
pub open spec fn response_bytes(status: Status, error_indicator: ErrorIndicator, length: u16, seed: u16) -> Seq<u8> {
    seq![(length % 256) as u8, mode_byte(length, status_value(status), false)]
        + crate::bytes::le32_bytes(error_indicator_value(error_indicator)).take(3) + seq![0u8]
        + crate::bytes::le16_bytes(seed)
}

/// The error indicator number of a memory access response (bytes 2 to 4).
pub open spec fn response_indicator_value(b: Seq<u8>) -> u32 {
    le32(b[2], b[3], b[4], 0) as u32
}

/// DM15 - Memory Access Response
#[derive(Debug, Clone, PartialEq, Eq)]
pub struct MemoryAccessResponse {
    raw: [u8; 8],
}

impl View for MemoryAccessResponse {
    type V = Seq<u8>;

    closed spec fn view(&self) -> Seq<u8> {
        self.raw@
    }
}

impl MemoryAccessResponse {
    /// Every response is 8 bytes long.
    pub proof fn lemma_len(&self)
        ensures
            self@.len() == 8,
    {
    }

    /// Create a new memory access response (`length` at most 2047).
    pub fn new(status: Status, error_indicator: ErrorIndicator, length: u16, seed: u16) -> (r: Self)
        requires
            length <= 0b11111111111,
        ensures
            r@ == response_bytes(status, error_indicator, length, seed),
    {
        let hi = (length / 256) as u8;
        let code = u8::from(status);
        let b1 = (hi << 5u8) | (code << 1u8);
        assert(b1 == (hi << 5u8) | (code << 1u8) | (0u8 << 4u8)) by (bit_vector)
            requires
                b1 == (hi << 5u8) | (code << 1u8),
        ;
        let e = crate::bytes::u32_to_le(u32::from(error_indicator));
        let s = crate::bytes::u16_to_le(seed);
        let raw = [(length % 256) as u8, b1, e[0], e[1], e[2], 0, s[0], s[1]];
        let r = Self { raw };
        assert(r@ =~= response_bytes(status, error_indicator, length, seed));
        r
    }

    /// The number of bytes the operation applies to.
    pub fn length(&self) -> (r: u16)
        ensures
            r == msg_length(self@),
    {
        crate::bytes::u16_from_le(self.raw[0], (self.raw[1] >> 5u8) & 0b111)
    }

    /// The status.
    pub fn status(&self) -> (r: Status)
        ensures
            r == status_from_value(msg_code(self@)),
    {
        Status::from((self.raw[1] >> 1u8) & 0b111)
    }

    /// The error indicator.
    pub fn error_indicator(&self) -> (r: ErrorIndicator)
        ensures
            r == error_indicator_from_value(response_indicator_value(self@)),
    {
        ErrorIndicator::from(crate::bytes::u32_from_le(self.raw[2], self.raw[3], self.raw[4], 0))
    }

    /// Seed for the security exchange.
    pub fn seed(&self) -> (r: u16)
        ensures
            r == le16(self@[6], self@[7]),
    {
        crate::bytes::u16_from_le(self.raw[6], self.raw[7])
    }

    /// A response of exactly 8 bytes; any other slice is handed back.
    pub fn try_from<'a>(value: &'a [u8]) -> (r: Result<Self, &'a [u8]>)
        ensures
            r is Ok <==> value@.len() == 8,
            r matches Ok(res) ==> res@ == value@,
            r matches Err(e) ==> e@ == value@,
    {
        match bytes8(value) {
            Some(raw) => Ok(Self { raw }),
            None => Err(value),
        }
    }
}

impl From<&MemoryAccessResponse> for [u8; 8] {
    fn from(res: &MemoryAccessResponse) -> (r: [u8; 8])
        ensures
            r@ == res@,
    {
        res.raw
    }
}

impl FromSpecImpl<&MemoryAccessResponse> for [u8; 8] {
    open spec fn obeys_from_spec() -> bool {
        true
    }

    closed spec fn from_spec(res: &MemoryAccessResponse) -> [u8; 8] {
        res.raw
    }
}

/// EDCP Extension State.
#[derive(Debug, Clone, Copy, PartialEq, Eq, Structural)]
pub enum EdcpExtensionState {
    Completed,
    ConcatenateFollowingAsHigherOrder,
    ConcatenateFollowingAsLowerOrder,
    IndicatorIsError,
    IndiactorIsErrorWithSeedTimeToCompletion,
    NoIndicatorAvailable,
}

/// DM17 - Boot Load Data
#[derive(Debug, Clone, PartialEq, Eq)]
pub struct BootLoadData {
    raw: [u8; 8],
}

impl View for BootLoadData {
    type V = Seq<u8>;

    closed spec fn view(&self) -> Seq<u8> {
        self.raw@
    }
}

impl BootLoadData {
    /// The 8 data bytes.
    pub fn data(&self) -> (r: [u8; 8])
        ensures
            r@ == self@,
    {
        self.raw
    }

    /// Boot load data of exactly 8 bytes; any other slice is handed back.
    pub fn try_from<'a>(value: &'a [u8]) -> (r: Result<Self, &'a [u8]>)
        ensures
            r is Ok <==> value@.len() == 8,
            r matches Ok(bl) ==> bl@ == value@,
            r matches Err(e) ==> e@ == value@,
    {
        match bytes8(value) {
            Some(raw) => Ok(Self { raw }),
            None => Err(value),
        }
    }
}

impl From<&BootLoadData> for [u8; 8] {
    fn from(bl: &BootLoadData) -> (r: [u8; 8])
        ensures
            r@ == bl@,
    {
        bl.raw
    }
}

impl FromSpecImpl<&BootLoadData> for [u8; 8] {
    open spec fn obeys_from_spec() -> bool {
        true
    }

    closed spec fn from_spec(bl: &BootLoadData) -> [u8; 8] {
        bl.raw
    }
}

/// The fields of byte 1 read back: length bits, code and spatial flag.
proof fn lemma_mode_byte(length: u16, code: u8, spatial: bool)
    requires
        length <= 2047,
        code <= 7,
    ensures
        (mode_byte(length, code, spatial) >> 5u8) & 7u8 == length / 256,
        (mode_byte(length, code, spatial) >> 1u8) & 7u8 == code,
        (mode_byte(length, code, spatial) & 0x10u8 != 0) == spatial,
{
    let hi = (length / 256) as u8;
    let s: u8 = if spatial { 1 } else { 0 };
    assert(hi <= 7);
    let b = (hi << 5u8) | (code << 1u8) | (s << 4u8);
    assert((b >> 5u8) & 7u8 == hi && (b >> 1u8) & 7u8 == code && ((b & 0x10u8 != 0) == (s == 1)))
        by (bit_vector)
        requires
            hi <= 7,
            code <= 7,
            s <= 1,
            b == (hi << 5u8) | (code << 1u8) | (s << 4u8),
    ;
}

/// A request built with a length up to 2047 and a command numbered up to 7
/// reads back the same length, command (by number), pointer and key.
#[verifier::rlimit(50)]
pub proof fn lemma_request_roundtrip(command: Command, pointer: Pointer, length: u16, key: u16)
    requires
        length <= 2047,
        command_value(command) <= 7,
    ensures
        ({
            let b = request_bytes(command, pointer, length, key);
            &&& msg_length(b) == length
            &&& command_value(command_from_value(msg_code(b))) == command_value(command)
            &&& request_pointer(b) == pointer
            &&& le16(b[6], b[7]) == key
        }),
{
    let spatial = pointer is Spatial;
    lemma_mode_byte(length, command_value(command), spatial);
    let b = request_bytes(command, pointer, length, key);
    assert(b[1] == mode_byte(length, command_value(command), spatial));
}

/// A response built with a length up to 2047, a status numbered up to 7 and
/// an error indicator of 24 bits reads back the same length, status (by
/// number), error indicator (by number) and seed.
pub proof fn lemma_response_roundtrip(status: Status, error_indicator: ErrorIndicator, length: u16, seed: u16)
    requires
        length <= 2047,
        status_value(status) <= 7,
        error_indicator_value(error_indicator) <= 0xFF_FFFF,
    ensures
        ({
            let b = response_bytes(status, error_indicator, length, seed);
            &&& msg_length(b) == length
            &&& status_value(status_from_value(msg_code(b))) == status_value(status)
            &&& error_indicator_value(error_indicator_from_value(response_indicator_value(b)))
                == error_indicator_value(error_indicator)
            &&& le16(b[6], b[7]) == seed
        }),
{
    lemma_mode_byte(length, status_value(status), false);
    let b = response_bytes(status, error_indicator, length, seed);
    assert(b[1] == mode_byte(length, status_value(status), false));
    let v = error_indicator_value(error_indicator);
    assert(response_indicator_value(b) == v);
}

} // verus!
