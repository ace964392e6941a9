//! Driver logic for the PEAK-System PCAN-USB FD adapter: command encoding,
//! bit-timing, and decoding of the records the device sends.

pub mod frame;

pub use frame::{FdFrame, Frame, fd_dlc_to_len, fd_len_to_dlc};

use crate::bytes::{le16, le16_bytes, le32, le32_bytes, padded, prefix, push_all, push_le16, push_le32, push_repeat, u16_from_le, u16_to_le, u32_from_le, u32_to_le, zeros};
use crate::can_id::{ExtendedId, Id, StandardId};
use crate::timing::{SearchRanges, search};
use frame::{spec_fd_dlc_to_len, spec_fd_len_to_dlc};
use vstd::prelude::*;

verus! {

/// PEAK-System vendor id.
pub const VENDOR_ID: u16 = 0x0c72;
/// PCAN-USB FD product id.
pub const PCAN_USBFD_PRODUCT_ID: u16 = 0x0012;

/// Command OUT endpoint when the firmware does not name one.
pub const EP_CMD_OUT_DEFAULT: u8 = 0x01;
/// Command IN endpoint when the firmware does not name one.
pub const EP_CMD_IN_DEFAULT: u8 = 0x81;
/// Data OUT endpoint when the firmware does not name one.
pub const EP_DATA_OUT_DEFAULT: u8 = 0x02;
/// Data IN endpoint when the firmware does not name one.
pub const EP_DATA_IN_DEFAULT: u8 = 0x82;

/// Vendor request reading device information.
pub const REQ_INFO: u8 = 0;
/// Vendor request calling a device function.
pub const REQ_FCT: u8 = 2;
/// Information block: firmware.
pub const INFO_FW: u16 = 1;
/// Device function: driver loaded.
pub const FCT_DRVLD: u16 = 5;
/// Payload length of the driver-loaded function.
pub const FCT_DRVLD_LEN: usize = 16;
/// Length of the firmware information block.
pub const FW_INFO_LEN: usize = 36;
/// Firmware information kinds from this one on carry endpoint numbers.
pub const FW_INFO_TYPE_EXT: u16 = 2;

/// Tx error counter write enable.
pub const PUCAN_WRERRCNT_TE: u16 = 0x4000;
/// Rx error counter write enable.
pub const PUCAN_WRERRCNT_RE: u16 = 0x8000;
/// Report error records.
pub const PUCAN_OPTION_ERROR: u16 = 0x0001;
/// Report calibration records.
pub const PCAN_UFD_FLTEXT_CALIBRATION: u16 = 0x8000;

/// Record type: received CAN frame.
pub const PUCAN_MSG_CAN_RX: u16 = 0x0001;
/// Record type: error counters.
pub const PUCAN_MSG_ERROR: u16 = 0x0002;
/// Record type: bus status.
pub const PUCAN_MSG_STATUS: u16 = 0x0003;
/// Record type: frame to transmit.
pub const PUCAN_MSG_CAN_TX: u16 = 0x1000;
/// Record type: calibration timestamp.
pub const PCAN_UFD_MSG_CALIBRATION: u16 = 0x0100;
/// Record type: receive overrun.
pub const PCAN_UFD_MSG_OVERRUN: u16 = 0x0101;

/// Frame flag: CAN-FD frame.
pub const PUCAN_MSG_EXT_DATA_LEN: u16 = 0x10;
/// Frame flag: bit-rate switch.
pub const PUCAN_MSG_BITRATE_SWITCH: u16 = 0x20;
/// Frame flag: error state indicator.
pub const PUCAN_MSG_ERROR_STATE_IND: u16 = 0x40;
/// Frame flag: extended identifier.
pub const PUCAN_MSG_EXT_ID: u16 = 0x02;
/// Frame flag: remote frame.
pub const PUCAN_MSG_RTR: u16 = 0x01;

/// Status flag: error passive.
pub const PUCAN_BUS_PASSIVE: u8 = 0x20;
/// Status flag: error warning.
pub const PUCAN_BUS_WARNING: u8 = 0x40;
/// Status flag: bus off.
pub const PUCAN_BUS_BUSOFF: u8 = 0x80;

/// Length of the fixed part of a received frame record.
pub const RX_HDR: usize = 28;
/// Offset of the size field in a record.
pub const RX_OFF_SIZE: usize = 0;
/// Offset of the type field in a record.
pub const RX_OFF_TYPE: usize = 2;
/// Offset of the channel and DLC byte in a frame record.
pub const RX_OFF_CHANNEL_DLC: usize = 20;
/// Offset of the flags in a frame record.
pub const RX_OFF_FLAGS: usize = 22;
/// Offset of the identifier in a frame record.
pub const RX_OFF_CAN_ID: usize = 24;
/// Offset of the data in a frame record.
pub const RX_OFF_DATA: usize = 28;
/// Offset of the passive/warning/bus-off byte in a status record.
pub const ST_OFF_CHANNEL_P_W_B: usize = 12;
/// Length of the fixed part of a transmitted frame record.
pub const TX_HDR: usize = 20;

/// PUCAN command opcodes.
#[derive(Debug, Clone, Copy, PartialEq, Eq, Structural)]
pub enum OpCode {
    ResetMode,
    NormalMode,
    ListenOnlyMode,
    TimingSlow,
    TimingFast,
    FilterStandard,
    ErrorCounterWrite,
    SetEnableOption,
    ClockSet,
    LedSet,
}

impl OpCode {
    /// The opcode number.
    pub open spec fn spec_code(self) -> u16 {
        match self {
            OpCode::ResetMode => 0x001,
            OpCode::NormalMode => 0x002,
            OpCode::ListenOnlyMode => 0x003,
            OpCode::TimingSlow => 0x004,
            OpCode::TimingFast => 0x005,
            OpCode::FilterStandard => 0x008,
            OpCode::ErrorCounterWrite => 0x00a,
            OpCode::SetEnableOption => 0x00b,
            OpCode::ClockSet => 0x080,
            OpCode::LedSet => 0x086,
        }
    }

    /// The opcode number.
    pub fn code(&self) -> (r: u16)
        ensures
            r == self.spec_code(),
    {
        match self {
            OpCode::ResetMode => 0x001,
            OpCode::NormalMode => 0x002,
            OpCode::ListenOnlyMode => 0x003,
            OpCode::TimingSlow => 0x004,
            OpCode::TimingFast => 0x005,
            OpCode::FilterStandard => 0x008,
            OpCode::ErrorCounterWrite => 0x00a,
            OpCode::SetEnableOption => 0x00b,
            OpCode::ClockSet => 0x080,
            OpCode::LedSet => 0x086,
        }
    }

    /// The opcode-and-channel field (channel 0): the opcode's low 10 bits, little-endian.
    pub open spec fn spec_bytes(self) -> Seq<u8> {
        le16_bytes((self.spec_code() % 1024) as u16)
    }

    /// The opcode-and-channel field (channel 0), little-endian.
    pub fn as_le_bytes(&self) -> (r: [u8; 2])
        ensures
            r@ == self.spec_bytes(),
    {
        let v = self.code() % 1024;
        [(v % 256) as u8, (v / 256) as u8]
    }
}

/// LED behaviour.
#[derive(Debug, Default, Clone, Copy, PartialEq, Eq, Structural)]
pub enum LedMode {
    #[default]
    Device,
    Fast,
    Slow,
    On,
    Off,
}

impl LedMode {
    /// The mode number sent to the device.
    pub open spec fn spec_code(self) -> u8 {
        match self {
            LedMode::Device => 0x00,
            LedMode::Fast => 0x01,
            LedMode::Slow => 0x02,
            LedMode::On => 0x03,
            LedMode::Off => 0x04,
        }
    }

    /// The mode number sent to the device.
    pub fn code(&self) -> (r: u8)
        ensures
            r == self.spec_code(),
    {
        match self {
            LedMode::Device => 0x00,
            LedMode::Fast => 0x01,
            LedMode::Slow => 0x02,
            LedMode::On => 0x03,
            LedMode::Off => 0x04,
        }
    }
}

/// Controller clock.
#[derive(Debug, Default, Clone, Copy, PartialEq, Eq, Structural)]
pub enum ClockMode {
    #[default]
    ClockMHz80,
    ClockMHz60,
    ClockMHz40,
    ClockMHz30,
    ClockMHz24,
    ClockMHz20,
}

impl ClockMode {
    /// The mode number sent to the device.
    pub open spec fn spec_code(self) -> u8 {
        match self {
            ClockMode::ClockMHz80 => 0x0,
            ClockMode::ClockMHz60 => 0x1,
            ClockMode::ClockMHz40 => 0x2,
            ClockMode::ClockMHz30 => 0x3,
            ClockMode::ClockMHz24 => 0x4,
            ClockMode::ClockMHz20 => 0x5,
        }
    }

    /// The clock frequency in Hz.
    pub open spec fn spec_hz(self) -> u32 {
        match self {
            ClockMode::ClockMHz80 => 80000000,
            ClockMode::ClockMHz60 => 60000000,
            ClockMode::ClockMHz40 => 40000000,
            ClockMode::ClockMHz30 => 30000000,
            ClockMode::ClockMHz24 => 24000000,
            ClockMode::ClockMHz20 => 20000000,
        }
    }

    /// The mode number sent to the device.
    pub fn code(&self) -> (r: u8)
        ensures
            r == self.spec_code(),
    {
        match self {
            ClockMode::ClockMHz80 => 0x0,
            ClockMode::ClockMHz60 => 0x1,
            ClockMode::ClockMHz40 => 0x2,
            ClockMode::ClockMHz30 => 0x3,
            ClockMode::ClockMHz24 => 0x4,
            ClockMode::ClockMHz20 => 0x5,
        }
    }

    /// The clock frequency in Hz.
    pub fn as_hz(&self) -> (r: u32)
        ensures
            r == self.spec_hz(),
    {
        match self {
            ClockMode::ClockMHz80 => 80000000,
            ClockMode::ClockMHz60 => 60000000,
            ClockMode::ClockMHz40 => 40000000,
            ClockMode::ClockMHz30 => 30000000,
            ClockMode::ClockMHz24 => 24000000,
            ClockMode::ClockMHz20 => 20000000,
        }
    }
}

/// The clock the bit-timing search assumes: the 80 MHz default.
pub open spec fn default_clock_hz() -> u32 {
    ClockMode::ClockMHz80.spec_hz()
}

/// Nominal (arbitration-phase) bittiming for the 80 MHz clock.
///
/// Hardware constraints: `brp` 1..=1024, `tseg1` 1..=256, `tseg2` 1..=128,
/// `sjw` 1..=128.
#[derive(Debug, Clone)]
pub struct BitTiming {
    pub tseg1: u16,
    pub tseg2: u8,
    pub sjw: u8,
    pub brp: u16,
}

/// The nominal search ranges.
pub open spec fn spec_nominal_ranges() -> SearchRanges {
    SearchRanges { brp_min: 1, brp_max: 1024, tseg1_min: 1, tseg1_max: 256, tseg2_min: 1, tseg2_max: 128 }
}

/// The data-phase search ranges.
pub open spec fn spec_data_ranges() -> SearchRanges {
    SearchRanges { brp_min: 1, brp_max: 1024, tseg1_min: 1, tseg1_max: 32, tseg2_min: 1, tseg2_max: 16 }
}

impl BitTiming {
    /// Compute bittiming from a desired nominal bitrate: the first candidate,
    /// in `(brp, tseg1, tseg2)` order, closest to `bitrate`, with
    /// `sjw = min(tseg2, 127) + 1`.
    pub fn from_bitrate(bitrate: u32) -> (r: BitTiming)
        ensures
            spec_nominal_ranges().is_best(
                default_clock_hz() as int,
                bitrate as int,
                r.brp as int,
                r.tseg1 as int,
                r.tseg2 as int,
            ),
            r.sjw == (if r.tseg2 < 127 { r.tseg2 } else { 127 }) + 1,
    {
        let ranges = SearchRanges { brp_min: 1, brp_max: 1024, tseg1_min: 1, tseg1_max: 256, tseg2_min: 1, tseg2_max: 128 };
        let clock = ClockMode::ClockMHz80.as_hz();
        match search(clock, bitrate, &ranges, false) {
            Some((brp, tseg1, tseg2)) => {
                let sjw: u32 = if tseg2 < 127 { tseg2 } else { 127 };
                BitTiming { tseg1: tseg1 as u16, tseg2: tseg2 as u8, sjw: sjw as u8 + 1, brp: brp as u16 }
            },
            None => BitTiming { tseg1: 13, tseg2: 2, sjw: 1, brp: 1 },
        }
    }
}

/// Data-phase bittiming for CAN-FD (80 MHz clock).
///
/// Hardware constraints: `brp` 1..=1024, `tseg1` 1..=32, `tseg2` 1..=16,
/// `sjw` 1..=16.
#[derive(Debug, Clone)]
pub struct DataBitTiming {
    pub tseg1: u8,
    pub tseg2: u8,
    pub sjw: u8,
    pub brp: u16,
}

impl DataBitTiming {
    /// Compute data bittiming from a desired data-phase bitrate: the first
    /// candidate, in `(brp, tseg1, tseg2)` order, closest to `bitrate`, with
    /// `sjw = min(tseg2, 15) + 1`.
    pub fn from_bitrate(bitrate: u32) -> (r: DataBitTiming)
        ensures
            spec_data_ranges().is_best(
                default_clock_hz() as int,
                bitrate as int,
                r.brp as int,
                r.tseg1 as int,
                r.tseg2 as int,
            ),
            r.sjw == (if r.tseg2 < 15 { r.tseg2 } else { 15 }) + 1,
    {
        let ranges = SearchRanges { brp_min: 1, brp_max: 1024, tseg1_min: 1, tseg1_max: 32, tseg2_min: 1, tseg2_max: 16 };
        let clock = ClockMode::ClockMHz80.as_hz();
        match search(clock, bitrate, &ranges, false) {
            Some((brp, tseg1, tseg2)) => {
                let sjw: u32 = if tseg2 < 15 { tseg2 } else { 15 };
                DataBitTiming { tseg1: tseg1 as u8, tseg2: tseg2 as u8, sjw: sjw as u8 + 1, brp: brp as u16 }
            },
            None => DataBitTiming { tseg1: 6, tseg2: 3, sjw: 1, brp: 1 },
        }
    }
}

/// Simple command with only the opcode (no payload).
pub fn cmd_opcode(opcode: OpCode) -> (r: [u8; 8])
    ensures
        r@ == opcode.spec_bytes() + seq![0u8, 0, 0, 0, 0, 0],
{
    let op = opcode.as_le_bytes();
    let r = [op[0], op[1], 0, 0, 0, 0, 0, 0];
    assert(r@ =~= opcode.spec_bytes() + seq![0u8, 0, 0, 0, 0, 0]);
    r
}

/// Clock domain command.
pub fn cmd_clock(mode: ClockMode) -> (r: [u8; 8])
    ensures
        r@ == OpCode::ClockSet.spec_bytes() + seq![mode.spec_code(), 0, 0, 0, 0, 0],
{
    let op = OpCode::ClockSet.as_le_bytes();
    let r = [op[0], op[1], mode.code(), 0, 0, 0, 0, 0];
    assert(r@ =~= OpCode::ClockSet.spec_bytes() + seq![mode.spec_code(), 0, 0, 0, 0, 0]);
    r
}

/// LED command.
pub fn cmd_led(mode: u8) -> (r: [u8; 8])
    ensures
        r@ == OpCode::LedSet.spec_bytes() + seq![mode, 0, 0, 0, 0, 0],
{
    let op = OpCode::LedSet.as_le_bytes();
    let r = [op[0], op[1], mode, 0, 0, 0, 0, 0];
    assert(r@ =~= OpCode::LedSet.spec_bytes() + seq![mode, 0, 0, 0, 0, 0]);
    r
}

/// Write error counters command.
pub fn cmd_error_counters_write(tx: u8, rx: u8) -> (r: [u8; 8])
    ensures
        r@ == OpCode::ErrorCounterWrite.spec_bytes() + le16_bytes(
            (PUCAN_WRERRCNT_TE + PUCAN_WRERRCNT_RE) as u16,
        ) + seq![tx, rx, 0, 0],
{
    let op = OpCode::ErrorCounterWrite.as_le_bytes();
    let mask = u16_to_le(PUCAN_WRERRCNT_TE + PUCAN_WRERRCNT_RE);
    let r = [op[0], op[1], mask[0], mask[1], tx, rx, 0, 0];
    assert(r@ =~= OpCode::ErrorCounterWrite.spec_bytes() + le16_bytes(
        (PUCAN_WRERRCNT_TE + PUCAN_WRERRCNT_RE) as u16,
    ) + seq![tx, rx, 0, 0]);
    r
}

/// Set or clear option flags.
pub fn cmd_option_set(opcode: OpCode, ucan_mask: u16, usb_mask: u16) -> (r: [u8; 8])
    ensures
        r@ == opcode.spec_bytes() + le16_bytes(ucan_mask) + seq![0u8, 0] + le16_bytes(usb_mask),
{
    let op = opcode.as_le_bytes();
    let u = u16_to_le(ucan_mask);
    let b = u16_to_le(usb_mask);
    let r = [op[0], op[1], u[0], u[1], 0, 0, b[0], b[1]];
    assert(r@ =~= opcode.spec_bytes() + le16_bytes(ucan_mask) + seq![0u8, 0] + le16_bytes(usb_mask));
    r
}

/// FILTER_STD command: set row `idx` to `mask`.
pub fn cmd_filter_std(idx: u16, mask: u32) -> (r: [u8; 8])
    ensures
        r@ == OpCode::FilterStandard.spec_bytes() + le16_bytes(idx) + le32_bytes(mask),
{
    let op = OpCode::FilterStandard.as_le_bytes();
    let i = u16_to_le(idx);
    let m = u32_to_le(mask);
    let r = [op[0], op[1], i[0], i[1], m[0], m[1], m[2], m[3]];
    assert(r@ =~= OpCode::FilterStandard.spec_bytes() + le16_bytes(idx) + le32_bytes(mask));
    r
}

/// `x - 1`, or 0 for 0.
pub open spec fn minus_one(x: int) -> int {
    if x > 0 {
        x - 1
    } else {
        0
    }
}

/// TIMING_SLOW command: nominal bittiming.
///
/// Layout: opcode (2), error warning limit 96, `sjw - 1` (7 bits, triple
/// sampling off), `tseg2 - 1` (7 bits), `tseg1 - 1` (8 bits), `brp - 1` (le16).
pub fn cmd_timing_slow(bt: &BitTiming) -> (r: [u8; 8])
    ensures
        r@ == OpCode::TimingSlow.spec_bytes() + seq![
            96u8,
            (minus_one(bt.sjw as int) % 128) as u8,
            (minus_one(bt.tseg2 as int) % 128) as u8,
            (minus_one(bt.tseg1 as int) % 256) as u8,
        ] + le16_bytes(minus_one(bt.brp as int) as u16),
{
    let op = OpCode::TimingSlow.as_le_bytes();
    let brp = u16_to_le(bt.brp.saturating_sub(1));
    let r = [
        op[0],
        op[1],
        96,
        bt.sjw.saturating_sub(1) % 128,
        bt.tseg2.saturating_sub(1) % 128,
        (bt.tseg1.saturating_sub(1) % 256) as u8,
        brp[0],
        brp[1],
    ];
    assert(r@ =~= OpCode::TimingSlow.spec_bytes() + seq![
        96u8,
        (minus_one(bt.sjw as int) % 128) as u8,
        (minus_one(bt.tseg2 as int) % 128) as u8,
        (minus_one(bt.tseg1 as int) % 256) as u8,
    ] + le16_bytes(minus_one(bt.brp as int) as u16));
    r
}

/// TIMING_FAST command: CAN-FD data-phase bittiming.
///
/// Layout: opcode (2), unused, `sjw - 1` (4 bits), `tseg2 - 1` (4 bits),
/// `tseg1 - 1` (5 bits), `brp - 1` (le16).
pub fn cmd_timing_fast(dbt: &DataBitTiming) -> (r: [u8; 8])
    ensures
        r@ == OpCode::TimingFast.spec_bytes() + seq![
            0u8,
            (minus_one(dbt.sjw as int) % 16) as u8,
            (minus_one(dbt.tseg2 as int) % 16) as u8,
            (minus_one(dbt.tseg1 as int) % 32) as u8,
        ] + le16_bytes(minus_one(dbt.brp as int) as u16),
{
    let op = OpCode::TimingFast.as_le_bytes();
    let brp = u16_to_le(dbt.brp.saturating_sub(1));
    let r = [
        op[0],
        op[1],
        0,
        dbt.sjw.saturating_sub(1) % 16,
        dbt.tseg2.saturating_sub(1) % 16,
        dbt.tseg1.saturating_sub(1) % 32,
        brp[0],
        brp[1],
    ];
    assert(r@ =~= OpCode::TimingFast.spec_bytes() + seq![
        0u8,
        (minus_one(dbt.sjw as int) % 16) as u8,
        (minus_one(dbt.tseg2 as int) % 16) as u8,
        (minus_one(dbt.tseg1 as int) % 32) as u8,
    ] + le16_bytes(minus_one(dbt.brp as int) as u16));
    r
}

/// Items received from the device.
#[derive(Debug, Clone)]
pub enum CanMessage {
    Frame(Frame),
    FdFrame(FdFrame),
    Status(BusStatus),
}

/// CAN bus error/state event from the device.
#[derive(Debug, Clone, PartialEq, Eq)]
pub struct BusStatus {
    pub bus_off: bool,
    pub bus_warning: bool,
    pub bus_passive: bool,
    pub tx_err: u8,
    pub rx_err: u8,
}

/// Mode flags for opening a channel.
#[derive(Debug, Clone, Default)]
pub struct ChannelOptions {
    /// Listen-only mode
    pub listen_only: bool,
    /// One-shot mode
    pub one_shot: bool,
}

/// The size field of the record that `s` starts with.
pub open spec fn rec_size(s: Seq<u8>) -> int {
    le16(s[0], s[1])
}

/// The type field of the record that `s` starts with.
pub open spec fn rec_type(s: Seq<u8>) -> int {
    le16(s[2], s[3])
}

/// The flags of a frame record.
pub open spec fn rec_flags(rec: Seq<u8>) -> u16 {
    le16(rec[22], rec[23]) as u16
}

/// The data length code of a frame record (high nibble of the channel byte).
pub open spec fn rec_dlc(rec: Seq<u8>) -> u8 {
    (rec[20] / 16) as u8
}

/// The identifier field of a frame record.
pub open spec fn rec_can_id(rec: Seq<u8>) -> u32 {
    le32(rec[24], rec[25], rec[26], rec[27]) as u32
}

/// The frame record holds a CAN-FD frame.
pub open spec fn rec_is_fd(rec: Seq<u8>) -> bool {
    rec_flags(rec) & PUCAN_MSG_EXT_DATA_LEN != 0
}

/// The frame record holds a remote frame.
pub open spec fn rec_rtr(rec: Seq<u8>) -> bool {
    rec_flags(rec) & PUCAN_MSG_RTR != 0
}

/// The length code of a classical frame record: codes 9 to 15 mean 8 bytes,
/// as CAN 2.0 defines them.
pub open spec fn rec_classic_dlc(rec: Seq<u8>) -> u8 {
    if rec_dlc(rec) > 8 {
        8u8
    } else {
        rec_dlc(rec)
    }
}

/// Number of data bytes the frame record carries.
pub open spec fn rec_data_len(rec: Seq<u8>) -> int {
    if rec_is_fd(rec) {
        spec_fd_dlc_to_len(rec_dlc(rec))
    } else if rec_rtr(rec) {
        0
    } else {
        rec_classic_dlc(rec) as int
    }
}

/// The identifier of a frame record: extended (29 bits) or standard (11 bits)
/// by the extended-id flag.
pub open spec fn rec_id(rec: Seq<u8>) -> Id {
    if rec_flags(rec) & PUCAN_MSG_EXT_ID != 0 {
        Id::Extended(ExtendedId::spec_new((rec_can_id(rec) % 0x2000_0000) as u32))
    } else {
        Id::Standard(StandardId::spec_new((rec_can_id(rec) % 0x800) as u16))
    }
}

/// Number of data bytes the frame record's length code claims: the FD
/// length, none for a remote frame, else the raw code (up to 15).
pub open spec fn rec_claimed_len(rec: Seq<u8>) -> int {
    if rec_is_fd(rec) {
        spec_fd_dlc_to_len(rec_dlc(rec))
    } else if rec_rtr(rec) {
        0
    } else {
        rec_dlc(rec) as int
    }
}

/// The frame record is long enough for its header and the data its length
/// code claims.
pub open spec fn rx_decodable(rec: Seq<u8>) -> bool {
    rec.len() >= RX_HDR && rec.len() >= RX_HDR + rec_claimed_len(rec)
}

/// `m` is the frame that record `rec` holds.
pub open spec fn rx_message(rec: Seq<u8>, m: CanMessage) -> bool {
    let n = rec_data_len(rec);
    let flags = rec_flags(rec);
    if rec_is_fd(rec) {
        &&& m matches CanMessage::FdFrame(f)
        &&& f.id == rec_id(rec)
        &&& f.data@ == rec.subrange(RX_OFF_DATA as int, RX_OFF_DATA + n) + zeros(64 - n)
        &&& f.len == n
        &&& f.brs == (flags & PUCAN_MSG_BITRATE_SWITCH != 0)
        &&& f.esi == (flags & PUCAN_MSG_ERROR_STATE_IND != 0)
    } else {
        &&& m matches CanMessage::Frame(f)
        &&& f.id == rec_id(rec)
        &&& f.data@ == rec.subrange(RX_OFF_DATA as int, RX_OFF_DATA + n) + zeros(8 - n)
        &&& f.dlc == rec_classic_dlc(rec)
        &&& f.rtr == rec_rtr(rec)
    }
}

/// `m` is the bus status that record `rec` holds.
pub open spec fn status_message(rec: Seq<u8>, m: CanMessage) -> bool {
    let flags = rec[ST_OFF_CHANNEL_P_W_B as int];
    &&& m matches CanMessage::Status(st)
    &&& st.bus_off == (flags & PUCAN_BUS_BUSOFF != 0)
    &&& st.bus_warning == (flags & PUCAN_BUS_WARNING != 0)
    &&& st.bus_passive == (flags & PUCAN_BUS_PASSIVE != 0)
    &&& st.tx_err == 0
    &&& st.rx_err == 0
}

/// Where the walk over the receive buffer stops.
pub enum Walk {
    /// A record with a user-visible message, and what follows it.
    Found(Seq<u8>, Seq<u8>),
    /// No user-visible message; what is left of the buffer.
    Exhausted(Seq<u8>),
}

/// Walk the records of the receive buffer `s`: each record starts with its
/// size and type; records of other types are skipped; a zero size ends the
/// buffer; an incomplete record is kept for later.
pub open spec fn walk(s: Seq<u8>) -> Walk
    decreases s.len(),
{
    if s.len() < 4 {
        Walk::Exhausted(s)
    } else if rec_size(s) == 0 {
        Walk::Exhausted(Seq::empty())
    } else if s.len() < rec_size(s) {
        Walk::Exhausted(s)
    } else {
        let rec = s.subrange(0, rec_size(s));
        let rest = s.subrange(rec_size(s), s.len() as int);
        if (rec_type(s) == PUCAN_MSG_CAN_RX && rx_decodable(rec)) || (rec_type(s)
            == PUCAN_MSG_STATUS && rec.len() >= 16) {
            Walk::Found(rec, rest)
        } else {
            walk(rest)
        }
    }
}

/// `m` is the message that the record `rec` (found by [`walk`]) holds.
pub open spec fn record_message(rec: Seq<u8>, m: CanMessage) -> bool {
    if rec_type(rec) == PUCAN_MSG_CAN_RX {
        rx_message(rec, m)
    } else {
        status_message(rec, m)
    }
}

/// A record found by [`walk`] is a decodable frame record or a status record
/// of at least 16 bytes.
proof fn lemma_walk_found(s: Seq<u8>)
    ensures
        walk(s) matches Walk::Found(rec, rest) ==> {
            &&& rec.len() >= 16
            &&& (rec_type(rec) == PUCAN_MSG_CAN_RX ==> rx_decodable(rec))
            &&& (rec_type(rec) != PUCAN_MSG_CAN_RX ==> rec_type(rec) == PUCAN_MSG_STATUS)
        },
    decreases s.len(),
{
    if s.len() >= 4 && rec_size(s) != 0 && s.len() >= rec_size(s) {
        let rec = s.subrange(0, rec_size(s));
        let rest = s.subrange(rec_size(s), s.len() as int);
        lemma_walk_found(rest);
        if walk(s) == Walk::Found(rec, rest) {
            assert(rec_type(rec) == rec_type(s));
        }
    }
}

/// Decode a received frame record; `None` when it is shorter than its
/// header and the data its length code claims. A classical frame's length
/// codes 9 to 15 mean 8 data bytes, as in CAN 2.0, so its length code is at
/// most 8.
pub fn decode_rx_msg(rec: &[u8]) -> (r: Option<CanMessage>)
    ensures
        r is Some <==> rx_decodable(rec@),
        r matches Some(m) ==> rx_message(rec@, m),
        r matches Some(CanMessage::Frame(f)) ==> f.dlc <= 8,
{
    if rec.len() < RX_HDR {
        return None;
    }
    let channel_dlc = rec[RX_OFF_CHANNEL_DLC];
    let dlc = channel_dlc / 16;
    let flags = u16_from_le(rec[RX_OFF_FLAGS], rec[RX_OFF_FLAGS + 1]);
    let can_id = u32_from_le(rec[RX_OFF_CAN_ID], rec[RX_OFF_CAN_ID + 1], rec[RX_OFF_CAN_ID + 2], rec[RX_OFF_CAN_ID + 3]);
    let id = if flags & PUCAN_MSG_EXT_ID != 0 {
        match ExtendedId::new(can_id % 0x2000_0000) {
            Some(e) => Id::Extended(e),
            None => Id::Extended(ExtendedId::max()),
        }
    } else {
        match StandardId::new((can_id % 0x800) as u16) {
            Some(s) => Id::Standard(s),
            None => Id::Standard(StandardId::max()),
        }
    };
    if flags & PUCAN_MSG_EXT_DATA_LEN != 0 {
        let data_len = fd_dlc_to_len(dlc);
        if rec.len() < RX_OFF_DATA + data_len {
            return None;
        }
        let body = vstd::slice::slice_subrange(rec, RX_OFF_DATA, RX_OFF_DATA + data_len);
        let data = padded::<64>(body);
        Some(CanMessage::FdFrame(FdFrame {
            id,
            data,
            len: data_len as u8,
            brs: flags & PUCAN_MSG_BITRATE_SWITCH != 0,
            esi: flags & PUCAN_MSG_ERROR_STATE_IND != 0,
        }))
    } else {
        let rtr = flags & PUCAN_MSG_RTR != 0;
        let claimed: usize = if rtr { 0 } else { dlc as usize };
        if rec.len() < RX_OFF_DATA + claimed {
            return None;
        }
        let dlc = if dlc > 8 { 8 } else { dlc };
        let data_len: usize = if rtr { 0 } else { dlc as usize };
        let body = vstd::slice::slice_subrange(rec, RX_OFF_DATA, RX_OFF_DATA + data_len);
        let data = padded::<8>(body);
        Some(CanMessage::Frame(Frame { id, data, dlc, rtr }))
    }
}

/// Decode a bus status record; `None` when it is shorter than 16 bytes.
pub fn decode_status_msg(rec: &[u8]) -> (r: Option<CanMessage>)
    ensures
        r is Some <==> rec@.len() >= 16,
        r matches Some(m) ==> status_message(rec@, m),
{
    if rec.len() < 16 {
        return None;
    }
    let flags = rec[ST_OFF_CHANNEL_P_W_B];
    Some(CanMessage::Status(BusStatus {
        bus_off: flags & PUCAN_BUS_BUSOFF != 0,
        bus_warning: flags & PUCAN_BUS_WARNING != 0,
        bus_passive: flags & PUCAN_BUS_PASSIVE != 0,
        tx_err: 0,
        rx_err: 0,
    }))
}

/// Whether a frame record is long enough for its header and data.
fn rx_check(rec: &[u8]) -> (r: bool)
    ensures
        r == rx_decodable(rec@),
{
    if rec.len() < RX_HDR {
        return false;
    }
    let dlc = rec[RX_OFF_CHANNEL_DLC] / 16;
    let flags = u16_from_le(rec[RX_OFF_FLAGS], rec[RX_OFF_FLAGS + 1]);
    let fd = flags & PUCAN_MSG_EXT_DATA_LEN != 0;
    let data_len: usize = if fd {
        fd_dlc_to_len(dlc)
    } else if flags & PUCAN_MSG_RTR != 0 {
        0
    } else {
        dlc as usize
    };
    rec.len() >= RX_HDR + data_len
}

/// Where a scan of the receive buffer stops, by byte offsets.
enum ScanEnd {
    Found(usize, usize),
    Keep(usize),
    Clear,
}

/// Walk the receive buffer as [`walk`] does, by offsets.
fn scan(buf: &[u8]) -> (r: ScanEnd)
    ensures
        match r {
            ScanEnd::Found(a, b) => a < b <= buf@.len() && walk(buf@) == Walk::Found(
                buf@.subrange(a as int, b as int),
                buf@.subrange(b as int, buf@.len() as int),
            ),
            ScanEnd::Keep(a) => a <= buf@.len() && walk(buf@) == Walk::Exhausted(
                buf@.subrange(a as int, buf@.len() as int),
            ),
            ScanEnd::Clear => walk(buf@) == Walk::Exhausted(Seq::empty()),
        },
{
    let len = buf.len();
    let mut off: usize = 0;
    assert(buf@.subrange(0, len as int) =~= buf@);
    loop
        invariant
            len == buf@.len(),
            off <= len,
            walk(buf@) == walk(buf@.subrange(off as int, len as int)),
        decreases len - off,
    {
        let ghost s = buf@.subrange(off as int, len as int);
        if len - off < 4 {
            return ScanEnd::Keep(off);
        }
        let size = u16_from_le(buf[off], buf[off + 1]) as usize;
        if size == 0 {
            return ScanEnd::Clear;
        }
        if len - off < size {
            return ScanEnd::Keep(off);
        }
        let ty = u16_from_le(buf[off + 2], buf[off + 3]);
        let rec = vstd::slice::slice_subrange(buf, off, off + size);
        proof {
            assert(rec@ =~= s.subrange(0, size as int));
            assert(buf@.subrange((off + size) as int, len as int) =~= s.subrange(size as int, s.len() as int));
        }
        if ty == PUCAN_MSG_CAN_RX {
            let decodable = rx_check(rec);
            if decodable {
                return ScanEnd::Found(off, off + size);
            }
        } else if ty == PUCAN_MSG_STATUS && size >= 16 {
            return ScanEnd::Found(off, off + size);
        }
        off = off + size;
    }
}

/// Decode one user-visible message from the accumulated receive buffer.
///
/// Walks the records in the buffer (each record carries its own `size`
/// field). Records that don't produce a user-visible message (calibration
/// timestamps, busload, ...) are consumed silently. Returns `None` when more
/// USB data is needed.
pub fn decode_one(buf: &mut Vec<u8>) -> (r: Option<CanMessage>)
    ensures
        match walk(old(buf)@) {
            Walk::Found(rec, rest) => final(buf)@ == rest && (r matches Some(m) && record_message(rec, m)),
            Walk::Exhausted(rest) => final(buf)@ == rest && r is None,
        },
{
    proof {
        lemma_walk_found(buf@);
    }
    match scan(buf.as_slice()) {
        ScanEnd::Found(a, b) => {
            let msg = {
                let rec = vstd::slice::slice_subrange(buf.as_slice(), a, b);
                let ty = u16_from_le(rec[2], rec[3]);
                if ty == PUCAN_MSG_CAN_RX {
                    decode_rx_msg(rec)
                } else {
                    decode_status_msg(rec)
                }
            };
            let tail = buf.split_off(b);
            *buf = tail;
            msg
        },
        ScanEnd::Keep(a) => {
            let tail = buf.split_off(a);
            *buf = tail;
            None
        },
        ScanEnd::Clear => {
            buf.clear();
            None
        },
    }
}

/// Size of a transmitted frame record with `n` data bytes: the header and
/// the data, rounded up to a multiple of 4.
pub open spec fn tx_record_size(n: int) -> int {
    (TX_HDR + n + 3) / 4 * 4
}

/// A transmit record for channel 0: size, type, zero tags, DLC in the high
/// nibble of the channel byte, zero client, flags, identifier, data, padding,
/// and a zero terminator of 4 bytes.
pub open spec fn tx_packet(can_id: u32, flags: u16, dlc: u8, data: Seq<u8>) -> Seq<u8> {
    let size = tx_record_size(data.len() as int);
    le16_bytes(size as u16) + le16_bytes(PUCAN_MSG_CAN_TX) + zeros(8) + seq![(dlc * 16) as u8, 0u8]
        + le16_bytes(flags) + le32_bytes(can_id) + data + zeros(size + 4 - TX_HDR - data.len())
}

/// Build a transmit record for `data` (at most 64 bytes) with a DLC below 16.
pub fn encode_tx_msg(can_id: u32, flags: u16, dlc: u8, data: &[u8]) -> (r: Vec<u8>)
    requires
        data@.len() <= 64,
        dlc < 16,
    ensures
        r@ == tx_packet(can_id, flags, dlc, data@),
{
    let data_len = data.len();
    let msg_size = (TX_HDR + data_len + 3) / 4 * 4;
    let mut buf: Vec<u8> = Vec::new();
    push_le16(&mut buf, msg_size as u16);
    push_le16(&mut buf, PUCAN_MSG_CAN_TX);
    push_repeat(&mut buf, 0, 8);
    buf.push(dlc * 16);
    buf.push(0);
    push_le16(&mut buf, flags);
    push_le32(&mut buf, can_id);
    push_all(&mut buf, data);
    push_repeat(&mut buf, 0, msg_size + 4 - TX_HDR - data_len);
    assert(buf@ =~= tx_packet(can_id, flags, dlc, data@));
    buf
}

/// The flags of a classical frame to transmit: the extended-id and remote
/// bits (distinct bits, so their sum is their union).
pub open spec fn frame_tx_flags(frame: Frame) -> u16 {
    ((if frame.id is Extended { PUCAN_MSG_EXT_ID } else { 0u16 }) + (if frame.rtr {
        PUCAN_MSG_RTR
    } else {
        0u16
    })) as u16
}

/// The transmit record of a classical frame: no data for a remote frame, else
/// the first `dlc` bytes; the DLC field is the low nibble of `dlc`.
pub fn frame_tx_message(frame: &Frame) -> (r: Vec<u8>)
    requires
        frame.rtr || frame.dlc <= 8,
    ensures
        r@ == tx_packet(
            frame.id.raw(),
            frame_tx_flags(*frame),
            frame.dlc % 16,
            if frame.rtr { Seq::empty() } else { frame.data@.subrange(0, frame.dlc as int) },
        ),
{
    let raw_id = frame.id.as_raw();
    let mut flags: u16 = 0;
    if frame.id.is_extended() {
        flags = flags + PUCAN_MSG_EXT_ID;
    }
    if frame.rtr {
        flags = flags + PUCAN_MSG_RTR;
    }
    let dlc = frame.dlc % 16;
    let data_len: usize = if frame.rtr { 0 } else { frame.dlc as usize };
    encode_tx_msg(raw_id, flags, dlc, prefix(frame.data.as_slice(), data_len))
}

/// The flags of a CAN-FD frame to transmit: the FD bit and the extended-id,
/// bit-rate-switch and error-state bits (distinct bits, so their sum is their union).
pub open spec fn fd_frame_tx_flags(frame: FdFrame) -> u16 {
    (PUCAN_MSG_EXT_DATA_LEN + (if frame.id is Extended { PUCAN_MSG_EXT_ID } else { 0u16 }) + (
    if frame.brs {
        PUCAN_MSG_BITRATE_SWITCH
    } else {
        0u16
    }) + (if frame.esi {
        PUCAN_MSG_ERROR_STATE_IND
    } else {
        0u16
    })) as u16
}

/// The transmit record of a CAN-FD frame: its first `len` bytes, with the
/// smallest DLC that holds them.
pub fn fd_frame_tx_message(frame: &FdFrame) -> (r: Vec<u8>)
    requires
        frame.len <= 64,
    ensures
        r@ == tx_packet(
            frame.id.raw(),
            fd_frame_tx_flags(*frame),
            spec_fd_len_to_dlc(frame.len as int),
            frame.data@.subrange(0, frame.len as int),
        ),
{
    let raw_id = frame.id.as_raw();
    let mut flags: u16 = PUCAN_MSG_EXT_DATA_LEN;
    if frame.id.is_extended() {
        flags = flags + PUCAN_MSG_EXT_ID;
    }
    if frame.brs {
        flags = flags + PUCAN_MSG_BITRATE_SWITCH;
    }
    if frame.esi {
        flags = flags + PUCAN_MSG_ERROR_STATE_IND;
    }
    let len = frame.len as usize;
    let dlc = fd_len_to_dlc(len);
    encode_tx_msg(raw_id, flags, dlc, prefix(frame.data.as_slice(), len))
}

/// The bytes of a sequence of commands, one after the other.
pub open spec fn concat_cmds(cmds: Seq<[u8; 8]>) -> Seq<u8>
    decreases cmds.len(),
{
    if cmds.len() == 0 {
        Seq::empty()
    } else {
        concat_cmds(cmds.drop_last()) + cmds.last()@
    }
}

/// The end-of-commands marker: eight `0xFF` bytes.
pub open spec fn eoc_marker() -> Seq<u8> {
    Seq::new(8, |i: int| 0xffu8)
}

/// One command transfer: the commands followed by the end-of-commands marker.
pub fn command_packet(cmds: &[[u8; 8]]) -> (r: Vec<u8>)
    ensures
        r@ == concat_cmds(cmds@) + eoc_marker(),
{
    let mut buf: Vec<u8> = Vec::new();
    let mut i: usize = 0;
    while i < cmds.len()
        invariant
            i <= cmds@.len(),
            buf@ == concat_cmds(cmds@.take(i as int)),
        decreases cmds@.len() - i,
    {
        let c = cmds[i];
        push_all(&mut buf, c.as_slice());
        proof {
            assert(cmds@.take(i as int + 1).drop_last() =~= cmds@.take(i as int));
        }
        i = i + 1;
    }
    assert(cmds@.take(cmds@.len() as int) =~= cmds@);
    push_repeat(&mut buf, 0xff, 8);
    buf
}

/// Number of standard filter rows.
pub const FILTER_ROWS: u16 = 64;

/// The eight accept-all filter commands of batch `batch`: rows `8 * batch`
/// to `8 * batch + 7`, each with mask `0xFFFF_FFFF`.
pub fn filter_batch(batch: u16) -> (r: Vec<[u8; 8]>)
    requires
        batch < 8,
    ensures
        r@.len() == 8,
        forall|j: int|
            0 <= j < 8 ==> r@[j]@ == OpCode::FilterStandard.spec_bytes() + le16_bytes(
                (batch * 8 + j) as u16,
            ) + le32_bytes(0xffff_ffffu32),
{
    let mut cmds: Vec<[u8; 8]> = Vec::new();
    let mut j: u16 = 0;
    while j < 8
        invariant
            batch < 8,
            j <= 8,
            cmds@.len() == j,
            forall|k: int|
                0 <= k < j ==> cmds@[k]@ == OpCode::FilterStandard.spec_bytes() + le16_bytes(
                    (batch * 8 + k) as u16,
                ) + le32_bytes(0xffff_ffffu32),
        decreases 8 - j,
    {
        cmds.push(cmd_filter_std(batch * 8 + j, 0xffff_ffff));
        j = j + 1;
    }
    cmds
}

/// The commands opening the channel, each sent on its own: error records on
/// with calibration records, error counters cleared, nominal bit timing, and
/// listen-only or normal mode.
pub fn open_channel_commands(bt: &BitTiming, opts: &ChannelOptions) -> (r: Vec<[u8; 8]>)
    ensures
        r@.len() == 4,
        r@[0]@ == OpCode::SetEnableOption.spec_bytes() + le16_bytes(PUCAN_OPTION_ERROR) + seq![0u8, 0]
            + le16_bytes(PCAN_UFD_FLTEXT_CALIBRATION),
        r@[1]@ == OpCode::ErrorCounterWrite.spec_bytes() + le16_bytes(
            (PUCAN_WRERRCNT_TE + PUCAN_WRERRCNT_RE) as u16,
        ) + seq![0u8, 0, 0, 0],
        r@[2]@ == OpCode::TimingSlow.spec_bytes() + seq![
            96u8,
            (minus_one(bt.sjw as int) % 128) as u8,
            (minus_one(bt.tseg2 as int) % 128) as u8,
            (minus_one(bt.tseg1 as int) % 256) as u8,
        ] + le16_bytes(minus_one(bt.brp as int) as u16),
        r@[3]@ == (if opts.listen_only { OpCode::ListenOnlyMode } else { OpCode::NormalMode }).spec_bytes()
            + seq![0u8, 0, 0, 0, 0, 0],
{
    let mut cmds: Vec<[u8; 8]> = Vec::new();
    cmds.push(cmd_option_set(OpCode::SetEnableOption, PUCAN_OPTION_ERROR, PCAN_UFD_FLTEXT_CALIBRATION));
    cmds.push(cmd_error_counters_write(0, 0));
    cmds.push(cmd_timing_slow(bt));
    let op = if opts.listen_only {
        OpCode::ListenOnlyMode
    } else {
        OpCode::NormalMode
    };
    cmds.push(cmd_opcode(op));
    cmds
}

/// The commands sent after opening the device: the default 80 MHz clock and
/// the default LED mode.
pub fn init_commands() -> (r: Vec<[u8; 8]>)
    ensures
        r@.len() == 2,
        r@[0]@ == OpCode::ClockSet.spec_bytes() + seq![ClockMode::ClockMHz80.spec_code(), 0, 0, 0, 0, 0],
        r@[1]@ == OpCode::LedSet.spec_bytes() + seq![LedMode::Device.spec_code(), 0, 0, 0, 0, 0],
{
    let mut cmds: Vec<[u8; 8]> = Vec::new();
    cmds.push(cmd_clock(ClockMode::ClockMHz80));
    cmds.push(cmd_led(LedMode::Device.code()));
    cmds
}

/// Firmware information.
#[derive(Debug)]
pub struct FirmwareInfo {
    pub size_of: u16,
    pub kind: u16,
    pub hardware_kind: u8,
    pub bootloader_version: [u8; 3],
    pub hardware_version: u8,
    pub firmware_version: [u8; 3],
    pub device_id: [u32; 2],
    pub serial_number: u32,
    pub flags: u32,
}

/// Length of the fixed firmware information.
pub const FW_INFO_BASE_LEN: usize = 28;

/// The bulk endpoints to use.
#[derive(Debug, Clone, Copy, PartialEq, Eq)]
pub struct Endpoints {
    pub cmd_out: u8,
    pub cmd_in: u8,
    pub data_out: u8,
    pub data_in: u8,
}

/// `info` is the firmware information in the first 28 bytes of `raw`
/// (multi-byte fields little-endian).
pub open spec fn firmware_info_of(raw: Seq<u8>, info: FirmwareInfo) -> bool {
    &&& info.size_of == le16(raw[0], raw[1])
    &&& info.kind == le16(raw[2], raw[3])
    &&& info.hardware_kind == raw[4]
    &&& info.bootloader_version@ == raw.subrange(5, 8)
    &&& info.hardware_version == raw[8]
    &&& info.firmware_version@ == raw.subrange(9, 12)
    &&& info.device_id@ == seq![
        le32(raw[12], raw[13], raw[14], raw[15]) as u32,
        le32(raw[16], raw[17], raw[18], raw[19]) as u32,
    ]
    &&& info.serial_number == le32(raw[20], raw[21], raw[22], raw[23])
    &&& info.flags == le32(raw[24], raw[25], raw[26], raw[27])
}

/// The endpoints: named in the extended information (bytes 28 to 35) from
/// information kind 2 on, else the defaults.
pub open spec fn endpoints_of(raw: Seq<u8>) -> Endpoints {
    if le16(raw[2], raw[3]) >= FW_INFO_TYPE_EXT {
        Endpoints { cmd_out: raw[28], cmd_in: raw[29], data_out: raw[30], data_in: raw[32] }
    } else {
        Endpoints {
            cmd_out: EP_CMD_OUT_DEFAULT,
            cmd_in: EP_CMD_IN_DEFAULT,
            data_out: EP_DATA_OUT_DEFAULT,
            data_in: EP_DATA_IN_DEFAULT,
        }
    }
}

/// The information holds all the bytes its kind needs.
pub open spec fn firmware_info_complete(raw: Seq<u8>) -> bool {
    &&& raw.len() >= FW_INFO_BASE_LEN
    &&& (le16(raw[2], raw[3]) >= FW_INFO_TYPE_EXT ==> raw.len() >= FW_INFO_BASE_LEN + 8)
}

/// Parse the firmware information block and pick the endpoints; `None` when
/// the block is too short.
pub fn parse_firmware_info(raw: &[u8]) -> (r: Option<(FirmwareInfo, Endpoints)>)
    ensures
        r is Some <==> firmware_info_complete(raw@),
        r matches Some((info, eps)) ==> firmware_info_of(raw@, info) && eps == endpoints_of(raw@),
{
    if raw.len() < FW_INFO_BASE_LEN {
        return None;
    }
    let info = FirmwareInfo {
        size_of: u16_from_le(raw[0], raw[1]),
        kind: u16_from_le(raw[2], raw[3]),
        hardware_kind: raw[4],
        bootloader_version: [raw[5], raw[6], raw[7]],
        hardware_version: raw[8],
        firmware_version: [raw[9], raw[10], raw[11]],
        device_id: [u32_from_le(raw[12], raw[13], raw[14], raw[15]), u32_from_le(raw[16], raw[17], raw[18], raw[19])],
        serial_number: u32_from_le(raw[20], raw[21], raw[22], raw[23]),
        flags: u32_from_le(raw[24], raw[25], raw[26], raw[27]),
    };
    assert(info.bootloader_version@ =~= raw@.subrange(5, 8));
    assert(info.firmware_version@ =~= raw@.subrange(9, 12));
    let eps = if info.kind >= FW_INFO_TYPE_EXT {
        if raw.len() < FW_INFO_BASE_LEN + 8 {
            return None;
        }
        Endpoints { cmd_out: raw[28], cmd_in: raw[29], data_out: raw[30], data_in: raw[32] }
    } else {
        Endpoints {
            cmd_out: EP_CMD_OUT_DEFAULT,
            cmd_in: EP_CMD_IN_DEFAULT,
            data_out: EP_DATA_OUT_DEFAULT,
            data_in: EP_DATA_IN_DEFAULT,
        }
    };
    Some((info, eps))
}

/// Payload of the driver-loaded function: byte 1 set, the rest zero.
pub fn driver_loaded_payload() -> (r: [u8; 16])
    ensures
        r@ == seq![0u8, 1u8] + zeros(14),
{
    let mut b = [0u8; 16];
    b[1] = 1;
    assert(b@ =~= seq![0u8, 1u8] + zeros(14));
    b
}

/// The PUCAN opcode numbers: the mode opcodes are consecutive from reset
/// (1: reset, 2: normal, 3: listen-only), the timing opcodes follow (4:
/// slow, 5: fast), then standard filter 8, error-counter write 0x0a, option
/// set 0x0b, and the UFD clock and LED opcodes 0x80 and 0x86; distinct
/// opcodes have distinct numbers, and each fits the 10-bit field whole.
pub proof fn lemma_opcode_numbers(a: OpCode, b: OpCode)
    ensures
        OpCode::ResetMode.spec_code() == 1,
        OpCode::NormalMode.spec_code() == OpCode::ResetMode.spec_code() + 1,
        OpCode::ListenOnlyMode.spec_code() == OpCode::NormalMode.spec_code() + 1,
        OpCode::TimingSlow.spec_code() == OpCode::ListenOnlyMode.spec_code() + 1,
        OpCode::TimingFast.spec_code() == OpCode::TimingSlow.spec_code() + 1,
        OpCode::FilterStandard.spec_code() == 8,
        OpCode::ErrorCounterWrite.spec_code() == 0x0a,
        OpCode::SetEnableOption.spec_code() == 0x0b,
        OpCode::ClockSet.spec_code() == 0x80,
        OpCode::LedSet.spec_code() == 0x86,
        a != b ==> a.spec_code() != b.spec_code(),
        a.spec_code() < 1024,
        a.spec_bytes() == seq![(a.spec_code() % 256) as u8, (a.spec_code() / 256) as u8],
{
}

/// The last command that opens a channel starts the bus: its first byte is
/// 3 (listen-only mode) when listening only, else 2 (normal mode), and its
/// other bytes are zero.
pub proof fn lemma_open_channel_mode(opts: ChannelOptions)
    ensures
        (if opts.listen_only { OpCode::ListenOnlyMode } else { OpCode::NormalMode }).spec_bytes()
            + seq![0u8, 0, 0, 0, 0, 0] == seq![
            if opts.listen_only { 3u8 } else { 2u8 },
            0u8,
            0,
            0,
            0,
            0,
            0,
            0,
        ],
{
    assert((if opts.listen_only { OpCode::ListenOnlyMode } else { OpCode::NormalMode }).spec_bytes()
        + seq![0u8, 0, 0, 0, 0, 0] =~= seq![
        if opts.listen_only { 3u8 } else { 2u8 },
        0u8,
        0,
        0,
        0,
        0,
        0,
        0,
    ]);
}

} // verus!
