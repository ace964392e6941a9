//! Contents of a SocketCAN error frame.

use vstd::prelude::*;
use vstd::std_specs::convert::FromSpecImpl;
use vstd::std_specs::ops::{BitAndSpecImpl, BitOrSpecImpl, BitXorSpecImpl};

verus! {

/// Error frame details.
#[derive(Debug, Default, Clone, Copy)]
pub struct CanError {
    /// Transmit timeout.
    pub tx_timeout: bool,
    /// Arbitration lost with bit number in bit stream. Zero if unspecified.
    pub lost_arbitration: Option<u8>,
    /// Controller error.
    pub controller: Option<ControllerError>,
    /// Protocol error kind and location.
    pub protocol: Option<(ProtocolErrorKind, Result<ProtocolErrorLocation, u8>)>,
    /// Transceiver error.
    pub transceiver: Option<TransceiverError>,
    /// No ack received.
    pub no_ack: bool,
    /// Bus-off state.
    pub bus_off: bool,
    /// Bus-error state.
    pub bus_error: bool,
    /// Controller restarted.
    pub restarted: bool,
    /// Transmit/receive error count.
    pub tx_rx_error_count: Option<(u8, u8)>,
}

/// Controller error state flags.
#[derive(Debug, Clone, Copy, PartialEq, Eq, Structural)]
pub struct ControllerError(pub u8);

impl ControllerError {
    /// Unspecified error.
    pub fn unspecified() -> (r: Self)
        ensures
            r.0 == 0x00,
    {
        Self(0x00)
    }

    /// Receive mailbox overflow.
    pub fn rx_overflow() -> (r: Self)
        ensures
            r.0 == 0x01,
    {
        Self(0x01)
    }

    /// Transmit mailbox overflow.
    pub fn tx_overflow() -> (r: Self)
        ensures
            r.0 == 0x02,
    {
        Self(0x02)
    }

    /// Receive mailbox warning level reached.
    pub fn rx_warning() -> (r: Self)
        ensures
            r.0 == 0x04,
    {
        Self(0x04)
    }

    /// Transmit mailbox warning level reached.
    pub fn tx_warning() -> (r: Self)
        ensures
            r.0 == 0x08,
    {
        Self(0x08)
    }

    /// Receive mailbox passive level reached.
    pub fn rx_passive() -> (r: Self)
        ensures
            r.0 == 0x10,
    {
        Self(0x10)
    }

    /// Transmit mailbox passive level reached.
    pub fn tx_passive() -> (r: Self)
        ensures
            r.0 == 0x20,
    {
        Self(0x20)
    }

    /// Controller recovered to active state.
    pub fn active() -> (r: Self)
        ensures
            r.0 == 0x40,
    {
        Self(0x40)
    }
}

impl core::ops::BitAnd for ControllerError {
    type Output = Self;

    fn bitand(self, rhs: Self) -> (r: Self::Output) {
        Self(self.0 & rhs.0)
    }
}

impl BitAndSpecImpl for ControllerError {
    open spec fn obeys_bitand_spec() -> bool {
        true
    }

    open spec fn bitand_req(self, rhs: Self) -> bool {
        true
    }

    open spec fn bitand_spec(self, rhs: Self) -> Self {
        Self(self.0 & rhs.0)
    }
}

impl core::ops::BitAndAssign for ControllerError {
    fn bitand_assign(&mut self, rhs: Self)
        ensures
            final(self).0 == old(self).0 & rhs.0,
    {
        *self = Self(self.0 & rhs.0)
    }
}

impl core::ops::BitOr for ControllerError {
    type Output = Self;

    fn bitor(self, rhs: Self) -> (r: Self::Output) {
        Self(self.0 | rhs.0)
    }
}

impl BitOrSpecImpl for ControllerError {
    open spec fn obeys_bitor_spec() -> bool {
        true
    }

    open spec fn bitor_req(self, rhs: Self) -> bool {
        true
    }

    open spec fn bitor_spec(self, rhs: Self) -> Self {
        Self(self.0 | rhs.0)
    }
}

impl core::ops::BitOrAssign for ControllerError {
    fn bitor_assign(&mut self, rhs: Self)
        ensures
            final(self).0 == old(self).0 | rhs.0,
    {
        *self = Self(self.0 | rhs.0)
    }
}

impl core::ops::BitXor for ControllerError {
    type Output = Self;

    fn bitxor(self, rhs: Self) -> (r: Self::Output) {
        Self(self.0 ^ rhs.0)
    }
}

impl BitXorSpecImpl for ControllerError {
    open spec fn obeys_bitxor_spec() -> bool {
        true
    }

    open spec fn bitxor_req(self, rhs: Self) -> bool {
        true
    }

    open spec fn bitxor_spec(self, rhs: Self) -> Self {
        Self(self.0 ^ rhs.0)
    }
}

impl core::ops::BitXorAssign for ControllerError {
    fn bitxor_assign(&mut self, rhs: Self)
        ensures
            final(self).0 == old(self).0 ^ rhs.0,
    {
        *self = Self(self.0 ^ rhs.0)
    }
}

/// Protocol error kind flags.
#[derive(Debug, Clone, Copy, PartialEq, Eq, Structural)]
pub struct ProtocolErrorKind(pub u8);

impl ProtocolErrorKind {
    /// Unspecified error.
    pub fn unspecified() -> (r: Self)
        ensures
            r.0 == 0x00,
    {
        Self(0x00)
    }

    /// Bit error.
    pub fn bit() -> (r: Self)
        ensures
            r.0 == 0x01,
    {
        Self(0x01)
    }

    /// Form error.
    pub fn form() -> (r: Self)
        ensures
            r.0 == 0x02,
    {
        Self(0x02)
    }

    /// Bit-stuffing error.
    pub fn stuff() -> (r: Self)
        ensures
            r.0 == 0x04,
    {
        Self(0x04)
    }

    /// Bit 0 (dominant) error.
    pub fn bit_dominant() -> (r: Self)
        ensures
            r.0 == 0x08,
    {
        Self(0x08)
    }

    /// Bit 1 (recessive) error.
    pub fn bit_recessive() -> (r: Self)
        ensures
            r.0 == 0x10,
    {
        Self(0x10)
    }

    /// Bus overload error.
    pub fn overload() -> (r: Self)
        ensures
            r.0 == 0x20,
    {
        Self(0x20)
    }

    /// Active error.
    pub fn active() -> (r: Self)
        ensures
            r.0 == 0x40,
    {
        Self(0x40)
    }

    /// Transmit error.
    pub fn transmit() -> (r: Self)
        ensures
            r.0 == 0x80,
    {
        Self(0x80)
    }
}

impl core::ops::BitAnd for ProtocolErrorKind {
    type Output = Self;

    fn bitand(self, rhs: Self) -> (r: Self::Output) {
        Self(self.0 & rhs.0)
    }
}

impl BitAndSpecImpl for ProtocolErrorKind {
    open spec fn obeys_bitand_spec() -> bool {
        true
    }

    open spec fn bitand_req(self, rhs: Self) -> bool {
        true
    }

    open spec fn bitand_spec(self, rhs: Self) -> Self {
        Self(self.0 & rhs.0)
    }
}

impl core::ops::BitAndAssign for ProtocolErrorKind {
    fn bitand_assign(&mut self, rhs: Self)
        ensures
            final(self).0 == old(self).0 & rhs.0,
    {
        *self = Self(self.0 & rhs.0)
    }
}

impl core::ops::BitOr for ProtocolErrorKind {
    type Output = Self;

    fn bitor(self, rhs: Self) -> (r: Self::Output) {
        Self(self.0 | rhs.0)
    }
}

impl BitOrSpecImpl for ProtocolErrorKind {
    open spec fn obeys_bitor_spec() -> bool {
        true
    }

    open spec fn bitor_req(self, rhs: Self) -> bool {
        true
    }

    open spec fn bitor_spec(self, rhs: Self) -> Self {
        Self(self.0 | rhs.0)
    }
}

impl core::ops::BitOrAssign for ProtocolErrorKind {
    fn bitor_assign(&mut self, rhs: Self)
        ensures
            final(self).0 == old(self).0 | rhs.0,
    {
        *self = Self(self.0 | rhs.0)
    }
}

impl core::ops::BitXor for ProtocolErrorKind {
    type Output = Self;

    fn bitxor(self, rhs: Self) -> (r: Self::Output) {
        Self(self.0 ^ rhs.0)
    }
}

impl BitXorSpecImpl for ProtocolErrorKind {
    open spec fn obeys_bitxor_spec() -> bool {
        true
    }

    open spec fn bitxor_req(self, rhs: Self) -> bool {
        true
    }

    open spec fn bitxor_spec(self, rhs: Self) -> Self {
        Self(self.0 ^ rhs.0)
    }
}

impl core::ops::BitXorAssign for ProtocolErrorKind {
    fn bitxor_assign(&mut self, rhs: Self)
        ensures
            final(self).0 == old(self).0 ^ rhs.0,
    {
        *self = Self(self.0 ^ rhs.0)
    }
}

/// Protocol error location.
#[derive(Debug, Clone, Copy, PartialEq, Eq, Structural)]
pub enum ProtocolErrorLocation {
    /// Unspecified.
    Unspecified,
    /// Start of frame.
    Sof,
    /// Bits 28 - 21.
    Id28_21,
    /// Bits 20 - 18.
    Id20_18,
    /// Substitute RTR.
    Srtr,
    /// Identifier extension.
    Ide,
    /// Bits 17 - 13.
    Id17_13,
    /// Bits 12 - 5.
    Id12_5,
    /// Bits 4 - 0.
    Id4_0,
    /// RTR bit.
    Rtr,
    /// Reserved bit 1.
    Res1,
    /// Reserved bit 0.
    Res0,
    /// Data length code.
    Dlc,
    /// Data section.
    Data,
    /// CRC sequence.
    CrcSeq,
    /// CRC delimiter.
    CrcDel,
    /// ACK slot.
    Ack,
    /// ACK delimiter.
    AckDel,
    /// End of frame.
    Eof,
    /// Intermission.
    Int,
}

/// The location numbered `value`, or `Err(value)` when none is.
pub open spec fn spec_location(value: u8) -> Result<ProtocolErrorLocation, u8> {
    match value {
        0x00 => Ok(ProtocolErrorLocation::Unspecified),
        0x03 => Ok(ProtocolErrorLocation::Sof),
        0x02 => Ok(ProtocolErrorLocation::Id28_21),
        0x06 => Ok(ProtocolErrorLocation::Id20_18),
        0x04 => Ok(ProtocolErrorLocation::Srtr),
        0x05 => Ok(ProtocolErrorLocation::Ide),
        0x07 => Ok(ProtocolErrorLocation::Id17_13),
        0x0F => Ok(ProtocolErrorLocation::Id12_5),
        0x0E => Ok(ProtocolErrorLocation::Id4_0),
        0x0C => Ok(ProtocolErrorLocation::Rtr),
        0x0D => Ok(ProtocolErrorLocation::Res1),
        0x09 => Ok(ProtocolErrorLocation::Res0),
        0x0B => Ok(ProtocolErrorLocation::Dlc),
        0x0A => Ok(ProtocolErrorLocation::Data),
        0x08 => Ok(ProtocolErrorLocation::CrcSeq),
        0x18 => Ok(ProtocolErrorLocation::CrcDel),
        0x19 => Ok(ProtocolErrorLocation::Ack),
        0x1B => Ok(ProtocolErrorLocation::AckDel),
        0x1A => Ok(ProtocolErrorLocation::Eof),
        0x12 => Ok(ProtocolErrorLocation::Int),
        _ => Err(value),
    }
}

impl ProtocolErrorLocation {
    /// The location's number in an error frame.
    pub open spec fn spec_code(self) -> u8 {
        match self {
            ProtocolErrorLocation::Unspecified => 0x00,
            ProtocolErrorLocation::Sof => 0x03,
            ProtocolErrorLocation::Id28_21 => 0x02,
            ProtocolErrorLocation::Id20_18 => 0x06,
            ProtocolErrorLocation::Srtr => 0x04,
            ProtocolErrorLocation::Ide => 0x05,
            ProtocolErrorLocation::Id17_13 => 0x07,
            ProtocolErrorLocation::Id12_5 => 0x0F,
            ProtocolErrorLocation::Id4_0 => 0x0E,
            ProtocolErrorLocation::Rtr => 0x0C,
            ProtocolErrorLocation::Res1 => 0x0D,
            ProtocolErrorLocation::Res0 => 0x09,
            ProtocolErrorLocation::Dlc => 0x0B,
            ProtocolErrorLocation::Data => 0x0A,
            ProtocolErrorLocation::CrcSeq => 0x08,
            ProtocolErrorLocation::CrcDel => 0x18,
            ProtocolErrorLocation::Ack => 0x19,
            ProtocolErrorLocation::AckDel => 0x1B,
            ProtocolErrorLocation::Eof => 0x1A,
            ProtocolErrorLocation::Int => 0x12,
        }
    }

    /// The location's number in an error frame.
    pub fn code(&self) -> (r: u8)
        ensures
            r == self.spec_code(),
    {
        match self {
            ProtocolErrorLocation::Unspecified => 0x00,
            ProtocolErrorLocation::Sof => 0x03,
            ProtocolErrorLocation::Id28_21 => 0x02,
            ProtocolErrorLocation::Id20_18 => 0x06,
            ProtocolErrorLocation::Srtr => 0x04,
            ProtocolErrorLocation::Ide => 0x05,
            ProtocolErrorLocation::Id17_13 => 0x07,
            ProtocolErrorLocation::Id12_5 => 0x0F,
            ProtocolErrorLocation::Id4_0 => 0x0E,
            ProtocolErrorLocation::Rtr => 0x0C,
            ProtocolErrorLocation::Res1 => 0x0D,
            ProtocolErrorLocation::Res0 => 0x09,
            ProtocolErrorLocation::Dlc => 0x0B,
            ProtocolErrorLocation::Data => 0x0A,
            ProtocolErrorLocation::CrcSeq => 0x08,
            ProtocolErrorLocation::CrcDel => 0x18,
            ProtocolErrorLocation::Ack => 0x19,
            ProtocolErrorLocation::AckDel => 0x1B,
            ProtocolErrorLocation::Eof => 0x1A,
            ProtocolErrorLocation::Int => 0x12,
        }
    }

    /// The location with number `value`; `Err(value)` when no location has it.
    pub fn try_from(value: u8) -> (r: Result<ProtocolErrorLocation, u8>)
        ensures
            r == spec_location(value),
            match r {
                Ok(l) => l.spec_code() == value,
                Err(e) => e == value && forall|l: ProtocolErrorLocation| l.spec_code() != value,
            },
    {
        match value {
            0x00 => Ok(Self::Unspecified),
            0x03 => Ok(Self::Sof),
            0x02 => Ok(Self::Id28_21),
            0x06 => Ok(Self::Id20_18),
            0x04 => Ok(Self::Srtr),
            0x05 => Ok(Self::Ide),
            0x07 => Ok(Self::Id17_13),
            0x0F => Ok(Self::Id12_5),
            0x0E => Ok(Self::Id4_0),
            0x0C => Ok(Self::Rtr),
            0x0D => Ok(Self::Res1),
            0x09 => Ok(Self::Res0),
            0x0B => Ok(Self::Dlc),
            0x0A => Ok(Self::Data),
            0x08 => Ok(Self::CrcSeq),
            0x18 => Ok(Self::CrcDel),
            0x19 => Ok(Self::Ack),
            0x1B => Ok(Self::AckDel),
            0x1A => Ok(Self::Eof),
            0x12 => Ok(Self::Int),
            _ => {
                assert forall|l: ProtocolErrorLocation| l.spec_code() != value by {
                    match l {
                        ProtocolErrorLocation::Unspecified => {},
                        ProtocolErrorLocation::Sof => {},
                        ProtocolErrorLocation::Id28_21 => {},
                        ProtocolErrorLocation::Id20_18 => {},
                        ProtocolErrorLocation::Srtr => {},
                        ProtocolErrorLocation::Ide => {},
                        ProtocolErrorLocation::Id17_13 => {},
                        ProtocolErrorLocation::Id12_5 => {},
                        ProtocolErrorLocation::Id4_0 => {},
                        ProtocolErrorLocation::Rtr => {},
                        ProtocolErrorLocation::Res1 => {},
                        ProtocolErrorLocation::Res0 => {},
                        ProtocolErrorLocation::Dlc => {},
                        ProtocolErrorLocation::Data => {},
                        ProtocolErrorLocation::CrcSeq => {},
                        ProtocolErrorLocation::CrcDel => {},
                        ProtocolErrorLocation::Ack => {},
                        ProtocolErrorLocation::AckDel => {},
                        ProtocolErrorLocation::Eof => {},
                        ProtocolErrorLocation::Int => {},
                    }
                }
                Err(value)
            },
        }
    }

    /// Distinct locations have distinct numbers, so a location's number reads
    /// back as the same location.
    pub proof fn lemma_code_injective(a: ProtocolErrorLocation, b: ProtocolErrorLocation)
        ensures
            a.spec_code() == b.spec_code() ==> a == b,
    {
    }
}

impl From<ProtocolErrorLocation> for u8 {
    fn from(value: ProtocolErrorLocation) -> (r: u8)
        ensures
            r == value.spec_code(),
    {
        value.code()
    }
}

impl FromSpecImpl<ProtocolErrorLocation> for u8 {
    open spec fn obeys_from_spec() -> bool {
        true
    }

    open spec fn from_spec(value: ProtocolErrorLocation) -> u8 {
        value.spec_code()
    }
}

/// Transceiver error code.
#[derive(Debug, Clone, Copy)]
pub struct TransceiverError(pub u8);

/// Transceiver code: unspecified.
pub const CAN_ERR_TRX_UNSPEC: u8 = 0x00;
/// Transceiver code: CAN high not connected.
pub const CAN_ERR_TRX_CANH_NO_WIRE: u8 = 0x04;
/// Transceiver code: CAN high shorted to battery.
pub const CAN_ERR_TRX_CANH_SHORT_TO_BAT: u8 = 0x05;
/// Transceiver code: CAN high shorted to supply.
pub const CAN_ERR_TRX_CANH_SHORT_TO_VCC: u8 = 0x06;
/// Transceiver code: CAN high shorted to ground.
pub const CAN_ERR_TRX_CANH_SHORT_TO_GND: u8 = 0x07;
/// Transceiver code: CAN low not connected.
pub const CAN_ERR_TRX_CANL_NO_WIRE: u8 = 0x40;
/// Transceiver code: CAN low shorted to battery.
pub const CAN_ERR_TRX_CANL_SHORT_TO_BAT: u8 = 0x50;
/// Transceiver code: CAN low shorted to supply.
pub const CAN_ERR_TRX_CANL_SHORT_TO_VCC: u8 = 0x60;
/// Transceiver code: CAN low shorted to ground.
pub const CAN_ERR_TRX_CANL_SHORT_TO_GND: u8 = 0x70;
/// Transceiver code: CAN low shorted to CAN high.
pub const CAN_ERR_TRX_CANL_SHORT_TO_CANH: u8 = 0x80;

/// The CAN-high error that transceiver code `code` reports.
pub open spec fn spec_error_high(code: u8) -> Option<TransceiverErrorKind> {
    if code == CAN_ERR_TRX_UNSPEC {
        Some(TransceiverErrorKind::Unspecified)
    } else if code == CAN_ERR_TRX_CANH_NO_WIRE {
        Some(TransceiverErrorKind::NoWire)
    } else if code == CAN_ERR_TRX_CANH_SHORT_TO_BAT {
        Some(TransceiverErrorKind::ShortToBattery)
    } else if code == CAN_ERR_TRX_CANH_SHORT_TO_VCC {
        Some(TransceiverErrorKind::ShortToPower)
    } else if code == CAN_ERR_TRX_CANH_SHORT_TO_GND {
        Some(TransceiverErrorKind::ShortToGround)
    } else if code == CAN_ERR_TRX_CANL_SHORT_TO_CANH {
        Some(TransceiverErrorKind::ShortLowToHigh)
    } else {
        None
    }
}

/// The CAN-low error that transceiver code `code` reports.
pub open spec fn spec_error_low(code: u8) -> Option<TransceiverErrorKind> {
    if code == CAN_ERR_TRX_UNSPEC {
        Some(TransceiverErrorKind::Unspecified)
    } else if code == CAN_ERR_TRX_CANL_NO_WIRE {
        Some(TransceiverErrorKind::NoWire)
    } else if code == CAN_ERR_TRX_CANL_SHORT_TO_BAT {
        Some(TransceiverErrorKind::ShortToBattery)
    } else if code == CAN_ERR_TRX_CANL_SHORT_TO_VCC {
        Some(TransceiverErrorKind::ShortToPower)
    } else if code == CAN_ERR_TRX_CANL_SHORT_TO_GND {
        Some(TransceiverErrorKind::ShortToGround)
    } else if code == CAN_ERR_TRX_CANL_SHORT_TO_CANH {
        Some(TransceiverErrorKind::ShortLowToHigh)
    } else {
        None
    }
}

impl TransceiverError {
    /// CAN high error.
    pub fn error_high(&self) -> (r: Option<TransceiverErrorKind>)
        ensures
            r == spec_error_high(self.0),
    {
        let code = self.0;
        if code == CAN_ERR_TRX_UNSPEC {
            Some(TransceiverErrorKind::Unspecified)
        } else if code == CAN_ERR_TRX_CANH_NO_WIRE {
            Some(TransceiverErrorKind::NoWire)
        } else if code == CAN_ERR_TRX_CANH_SHORT_TO_BAT {
            Some(TransceiverErrorKind::ShortToBattery)
        } else if code == CAN_ERR_TRX_CANH_SHORT_TO_VCC {
            Some(TransceiverErrorKind::ShortToPower)
        } else if code == CAN_ERR_TRX_CANH_SHORT_TO_GND {
            Some(TransceiverErrorKind::ShortToGround)
        } else if code == CAN_ERR_TRX_CANL_SHORT_TO_CANH {
            Some(TransceiverErrorKind::ShortLowToHigh)
        } else {
            None
        }
    }

    /// CAN low error.
    pub fn error_low(&self) -> (r: Option<TransceiverErrorKind>)
        ensures
            r == spec_error_low(self.0),
    {
        let code = self.0;
        if code == CAN_ERR_TRX_UNSPEC {
            Some(TransceiverErrorKind::Unspecified)
        } else if code == CAN_ERR_TRX_CANL_NO_WIRE {
            Some(TransceiverErrorKind::NoWire)
        } else if code == CAN_ERR_TRX_CANL_SHORT_TO_BAT {
            Some(TransceiverErrorKind::ShortToBattery)
        } else if code == CAN_ERR_TRX_CANL_SHORT_TO_VCC {
            Some(TransceiverErrorKind::ShortToPower)
        } else if code == CAN_ERR_TRX_CANL_SHORT_TO_GND {
            Some(TransceiverErrorKind::ShortToGround)
        } else if code == CAN_ERR_TRX_CANL_SHORT_TO_CANH {
            Some(TransceiverErrorKind::ShortLowToHigh)
        } else {
            None
        }
    }

    /// The transceiver reported an unspecified error.
    pub fn error_unspecified(&self) -> (r: bool)
        ensures
            r == (self.0 == CAN_ERR_TRX_UNSPEC),
    {
        self.0 == CAN_ERR_TRX_UNSPEC
    }

    /// The transceiver reported CAN low shorted to CAN high.
    pub fn error_short_low_to_high(&self) -> (r: bool)
        ensures
            r == (self.0 == CAN_ERR_TRX_CANL_SHORT_TO_CANH),
    {
        self.0 == CAN_ERR_TRX_CANL_SHORT_TO_CANH
    }
}

/// Only the unspecified code and the low-to-high short are reported on both
/// wires, and then as the same kind; each of the two flags matches its kind
/// on either wire.
pub proof fn lemma_wires_agree(code: u8)
    ensures
        spec_error_high(code) is Some && spec_error_low(code) is Some ==> spec_error_high(code)
            == spec_error_low(code),
        spec_error_high(code) is Some && spec_error_low(code) is Some <==> (code
            == CAN_ERR_TRX_UNSPEC || code == CAN_ERR_TRX_CANL_SHORT_TO_CANH),
        (code == CAN_ERR_TRX_UNSPEC) <==> spec_error_high(code) == Some(
            TransceiverErrorKind::Unspecified,
        ),
        (code == CAN_ERR_TRX_UNSPEC) <==> spec_error_low(code) == Some(
            TransceiverErrorKind::Unspecified,
        ),
        (code == CAN_ERR_TRX_CANL_SHORT_TO_CANH) <==> spec_error_high(code) == Some(
            TransceiverErrorKind::ShortLowToHigh,
        ),
        (code == CAN_ERR_TRX_CANL_SHORT_TO_CANH) <==> spec_error_low(code) == Some(
            TransceiverErrorKind::ShortLowToHigh,
        ),
{
}

/// Transceiver error type.
#[derive(Debug, Clone, Copy, PartialEq, Eq, Structural)]
pub enum TransceiverErrorKind {
    /// Unspecified error.
    Unspecified,
    /// Not connected.
    NoWire,
    /// Short to battery.
    ShortToBattery,
    /// Short to power.
    ShortToPower,
    /// Short to ground.
    ShortToGround,
    /// Short low to high.
    ShortLowToHigh,
}

} // verus!
