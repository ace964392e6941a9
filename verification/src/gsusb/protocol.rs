//! Control requests and the structures they carry: little-endian words laid
//! out one after another.

use crate::bytes::{le32_at, le32_words, lemma_words_roundtrip, read_words, words_bytes, write_words};
use vstd::prelude::*;
use vstd::std_specs::convert::FromSpecImpl;

verus! {

/// USB control request types.
#[derive(Debug, Clone, Copy, PartialEq, Eq, Structural)]
pub enum ControlRequest {
    HostFormat,
    BitTiming,
    Mode,
    BusError,
    BitTimingConst,
    DeviceConfig,
    Timestamp,
    Identify,
    GetUserId,
    SetuserId,
    DataBitTiming,
    BitTimingConstExt,
    SetTermination,
    GetTermination,
    GetState,
}

impl ControlRequest {
    /// The request number.
    pub open spec fn spec_code(self) -> u8 {
        match self {
            ControlRequest::HostFormat => 0,
            ControlRequest::BitTiming => 1,
            ControlRequest::Mode => 2,
            ControlRequest::BusError => 3,
            ControlRequest::BitTimingConst => 4,
            ControlRequest::DeviceConfig => 5,
            ControlRequest::Timestamp => 6,
            ControlRequest::Identify => 7,
            ControlRequest::GetUserId => 8,
            ControlRequest::SetuserId => 9,
            ControlRequest::DataBitTiming => 10,
            ControlRequest::BitTimingConstExt => 11,
            ControlRequest::SetTermination => 12,
            ControlRequest::GetTermination => 13,
            ControlRequest::GetState => 14,
        }
    }
}

impl From<ControlRequest> for u8 {
    fn from(value: ControlRequest) -> (r: u8)
        ensures
            r == value.spec_code(),
    {
        match value {
            ControlRequest::HostFormat => 0,
            ControlRequest::BitTiming => 1,
            ControlRequest::Mode => 2,
            ControlRequest::BusError => 3,
            ControlRequest::BitTimingConst => 4,
            ControlRequest::DeviceConfig => 5,
            ControlRequest::Timestamp => 6,
            ControlRequest::Identify => 7,
            ControlRequest::GetUserId => 8,
            ControlRequest::SetuserId => 9,
            ControlRequest::DataBitTiming => 10,
            ControlRequest::BitTimingConstExt => 11,
            ControlRequest::SetTermination => 12,
            ControlRequest::GetTermination => 13,
            ControlRequest::GetState => 14,
        }
    }
}

impl FromSpecImpl<ControlRequest> for u8 {
    open spec fn obeys_from_spec() -> bool {
        true
    }

    open spec fn from_spec(value: ControlRequest) -> u8 {
        value.spec_code()
    }
}

/// Device features and modes.
#[derive(Debug, Clone, Copy, PartialEq, Eq, Structural)]
pub struct Features(pub u32);

impl Features {
    /// Do not transmit.
    pub fn flag_listen_only() -> (r: Self)
        ensures
            r.0 == 1u32 << 0u32,
    {
        Self(1u32 << 0u32)
    }

    /// Receive what is sent.
    pub fn flag_loop_back() -> (r: Self)
        ensures
            r.0 == 1u32 << 1u32,
    {
        Self(1u32 << 1u32)
    }

    /// Sample each bit three times.
    pub fn flag_triple_sample() -> (r: Self)
        ensures
            r.0 == 1u32 << 2u32,
    {
        Self(1u32 << 2u32)
    }

    /// Do not retry a transmission.
    pub fn flag_one_shot() -> (r: Self)
        ensures
            r.0 == 1u32 << 3u32,
    {
        Self(1u32 << 3u32)
    }

    /// Hardware timestamps.
    pub fn flag_hw_timestamp() -> (r: Self)
        ensures
            r.0 == 1u32 << 4u32,
    {
        Self(1u32 << 4u32)
    }

    /// Identify by blinking.
    pub fn flag_identify() -> (r: Self)
        ensures
            r.0 == 1u32 << 5u32,
    {
        Self(1u32 << 5u32)
    }

    /// User id storage.
    pub fn flag_user_id() -> (r: Self)
        ensures
            r.0 == 1u32 << 6u32,
    {
        Self(1u32 << 6u32)
    }

    /// Pad transfers to the maximum packet size.
    pub fn flag_pad_pkts_to_max_size() -> (r: Self)
        ensures
            r.0 == 1u32 << 7u32,
    {
        Self(1u32 << 7u32)
    }

    /// CAN FD.
    pub fn flag_fd() -> (r: Self)
        ensures
            r.0 == 1u32 << 8u32,
    {
        Self(1u32 << 8u32)
    }

    /// LPC546xx USB quirk.
    pub fn flag_usb_quirk_lpc546xx() -> (r: Self)
        ensures
            r.0 == 1u32 << 9u32,
    {
        Self(1u32 << 9u32)
    }

    /// Extended bit-timing constants.
    pub fn flag_bt_const_ext() -> (r: Self)
        ensures
            r.0 == 1u32 << 10u32,
    {
        Self(1u32 << 10u32)
    }

    /// Switchable termination.
    pub fn flag_termination() -> (r: Self)
        ensures
            r.0 == 1u32 << 11u32,
    {
        Self(1u32 << 11u32)
    }

    /// Bus error reporting.
    pub fn flag_bus_error_reporting() -> (r: Self)
        ensures
            r.0 == 1u32 << 12u32,
    {
        Self(1u32 << 12u32)
    }

    /// Channel state query.
    pub fn flag_get_state() -> (r: Self)
        ensures
            r.0 == 1u32 << 13u32,
    {
        Self(1u32 << 13u32)
    }

    /// No feature.
    pub fn new() -> (r: Self)
        ensures
            r.0 == 0,
    {
        Features(0)
    }
}

impl core::ops::BitOrAssign for Features {
    fn bitor_assign(&mut self, rhs: Self)
        ensures
            final(self).0 == old(self).0 | rhs.0,
    {
        self.0 = self.0 | rhs.0;
    }
}

/// Channel state codes a device reports.
#[derive(Debug, Clone, Copy, PartialEq, Eq, Structural)]
pub enum CanState {
    /// RX/TX error count < 96
    Active,
    /// RX/TX error count < 128
    Warning,
    /// RX/TX error count < 256
    Passive,
    /// RX/TX error count >= 256
    BusOff,
    /// Device is stopped
    Stopped,
    /// Device is sleeping
    Sleeping,
}

/// The state numbered `code`, if any.
pub open spec fn spec_can_state(code: u32) -> Option<CanState> {
    match code {
        0 => Some(CanState::Active),
        1 => Some(CanState::Warning),
        2 => Some(CanState::Passive),
        3 => Some(CanState::BusOff),
        4 => Some(CanState::Stopped),
        5 => Some(CanState::Sleeping),
        _ => None,
    }
}

/// Host configuration.
///
/// Indicates byte order with a magic number. `0x0000beef` for little endian and
/// `0xefbe0000` for big endian.
#[derive(Debug, Clone, Copy, PartialEq, Eq, Structural)]
pub struct HostConfig {
    pub byte_order: u32,
}

/// Device configuration.
#[derive(Debug, Clone, Copy, PartialEq, Eq, Structural)]
pub struct DeviceConfig {
    pub interface_count: u8,
    pub software_version: u32,
    pub hardware_version: u32,
}

impl DeviceConfig {
    /// Read from exactly 12 bytes (three reserved bytes, the interface count,
    /// then two words); `None` for any other length.
    pub fn from_bytes(b: &[u8]) -> (r: Option<DeviceConfig>)
        ensures
            r is Some <==> b@.len() == 12,
            r matches Some(c) ==> {
                &&& c.interface_count == b@[3]
                &&& c.software_version == le32_at(b@, 4)
                &&& c.hardware_version == le32_at(b@, 8)
            },
    {
        if b.len() != 12 {
            return None;
        }
        Some(
            DeviceConfig {
                interface_count: b[3],
                software_version: crate::bytes::read_le32(b, 4),
                hardware_version: crate::bytes::read_le32(b, 8),
            },
        )
    }
}

/// Device mode and feature flags.
#[derive(Debug, Clone, Copy, PartialEq, Eq, Structural)]
pub struct DeviceMode {
    pub mode: u32,
    pub flags: Features,
}

impl DeviceMode {
    /// Mode: reset the channel.
    pub const MODE_RESET: u32 = 0;
    /// Mode: start the channel.
    pub const MODE_START: u32 = 1;
}

/// Channel state and error counters as the device reports them.
#[derive(Debug, Clone, Copy, PartialEq, Eq, Structural)]
pub struct DeviceState {
    pub state: u32,
    pub rx_errors: u32,
    pub tx_errors: u32,
}

impl DeviceState {
    /// The reported state; `None` for a code no state has.
    pub fn state(&self) -> (r: Option<CanState>)
        ensures
            r == spec_can_state(self.state),
    {
        match self.state {
            0 => Some(CanState::Active),
            1 => Some(CanState::Warning),
            2 => Some(CanState::Passive),
            3 => Some(CanState::BusOff),
            4 => Some(CanState::Stopped),
            5 => Some(CanState::Sleeping),
            _ => None,
        }
    }
}

/// Bit timing to set on a channel.
#[derive(Debug, Clone, Copy, PartialEq, Eq, Structural)]
pub struct DeviceBitTiming {
    pub prop_seg: u32,
    pub phase_seg1: u32,
    pub phase_seg2: u32,
    pub sjw: u32,
    pub brp: u32,
}

/// Bit-timing limits of a channel.
#[derive(Debug, Clone, Copy, PartialEq, Eq, Structural)]
pub struct CanBitTimingConst {
    pub tseg1_min: u32,
    pub tseg1_max: u32,
    pub tseg2_min: u32,
    pub tseg2_max: u32,
    pub sjw_max: u32,
    pub brp_min: u32,
    pub brp_max: u32,
    pub brp_inc: u32,
}

/// Device bit-timing and feature flags.
#[derive(Debug, Clone, Copy, PartialEq, Eq, Structural)]
pub struct DeviceBitTimingConst {
    pub features: Features,
    pub fclk_can: u32,
    pub timing: CanBitTimingConst,
}

/// Device extended bit-timing and feature flags for CAN FD devices.
#[derive(Debug, Clone, Copy, PartialEq, Eq, Structural)]
pub struct DeviceBitTimingConstExtended {
    pub features: Features,
    pub fclk_can: u32,
    pub timing_nominal: CanBitTimingConst,
    pub timing_data: CanBitTimingConst,
}

/// Identify mode.
#[derive(Debug, Clone, Copy, PartialEq, Eq, Structural)]
pub struct IdentifyMode {
    pub mode: u32,
}

/// Termination state.
#[derive(Debug, Clone, Copy, PartialEq, Eq, Structural)]
pub struct DeviceTerminationState {
    pub state: u32,
}

impl HostConfig {
    /// The words in layout order.
    pub open spec fn words(self) -> Seq<u32> {
        seq![self.byte_order]
    }

    /// The value whose words are the first 1 of `ws`.
    pub open spec fn from_words(ws: Seq<u32>) -> HostConfig {
        HostConfig { byte_order: ws[0] }
    }

    /// The 4 bytes laid out as the device expects.
    pub fn to_bytes(&self) -> (r: Vec<u8>)
        ensures
            r@ == words_bytes(self.words()),
    {
        let ws: Vec<u32> = vec![self.byte_order];
        assert(ws@ =~= self.words());
        write_words(ws.as_slice())
    }

    /// The words written out and read back give the value back.
    pub proof fn lemma_words_roundtrip(self)
        ensures
            Self::from_words(le32_words(words_bytes(self.words()))) == self,
            self.words().len() == 1,
    {
        lemma_words_roundtrip(self.words());
        self.lemma_from_words();
    }

    /// The value is the one its own words make.
    proof fn lemma_from_words(self)
        ensures
            Self::from_words(self.words()) == self,
    {
    }
}

impl DeviceMode {
    /// The words in layout order.
    pub open spec fn words(self) -> Seq<u32> {
        seq![self.mode, self.flags.0]
    }

    /// The value whose words are the first 2 of `ws`.
    pub open spec fn from_words(ws: Seq<u32>) -> DeviceMode {
        DeviceMode { mode: ws[0], flags: Features(ws[1]) }
    }

    /// The 8 bytes laid out as the device expects.
    pub fn to_bytes(&self) -> (r: Vec<u8>)
        ensures
            r@ == words_bytes(self.words()),
    {
        let ws: Vec<u32> = vec![self.mode, self.flags.0];
        assert(ws@ =~= self.words());
        write_words(ws.as_slice())
    }

    /// Read from exactly 8 bytes; `None` for any other length.
    pub fn from_bytes(b: &[u8]) -> (r: Option<DeviceMode>)
        ensures
            r is Some <==> b@.len() == 8,
            r matches Some(x) ==> x == DeviceMode::from_words(le32_words(b@)),
    {
        if b.len() != 8 {
            return None;
        }
        let w = read_words(b);
        let x = DeviceMode { mode: w[0], flags: Features(w[1]) };
        proof {
            assert(w@.len() == 2);
        }
        Some(x)
    }

    /// The words written out and read back give the value back.
    pub proof fn lemma_words_roundtrip(self)
        ensures
            Self::from_words(le32_words(words_bytes(self.words()))) == self,
            self.words().len() == 2,
    {
        lemma_words_roundtrip(self.words());
        self.lemma_from_words();
    }

    /// The value is the one its own words make.
    proof fn lemma_from_words(self)
        ensures
            Self::from_words(self.words()) == self,
    {
    }
}

impl DeviceState {
    /// The words in layout order.
    pub open spec fn words(self) -> Seq<u32> {
        seq![self.state, self.rx_errors, self.tx_errors]
    }

    /// The value whose words are the first 3 of `ws`.
    pub open spec fn from_words(ws: Seq<u32>) -> DeviceState {
        DeviceState { state: ws[0], rx_errors: ws[1], tx_errors: ws[2] }
    }

    /// Read from exactly 12 bytes; `None` for any other length.
    pub fn from_bytes(b: &[u8]) -> (r: Option<DeviceState>)
        ensures
            r is Some <==> b@.len() == 12,
            r matches Some(x) ==> x == DeviceState::from_words(le32_words(b@)),
    {
        if b.len() != 12 {
            return None;
        }
        let w = read_words(b);
        let x = DeviceState { state: w[0], rx_errors: w[1], tx_errors: w[2] };
        proof {
            assert(w@.len() == 3);
        }
        Some(x)
    }

    /// The words written out and read back give the value back.
    pub proof fn lemma_words_roundtrip(self)
        ensures
            Self::from_words(le32_words(words_bytes(self.words()))) == self,
            self.words().len() == 3,
    {
        lemma_words_roundtrip(self.words());
        self.lemma_from_words();
    }

    /// The value is the one its own words make.
    proof fn lemma_from_words(self)
        ensures
            Self::from_words(self.words()) == self,
    {
    }
}

impl DeviceBitTiming {
    /// The words in layout order.
    pub open spec fn words(self) -> Seq<u32> {
        seq![self.prop_seg, self.phase_seg1, self.phase_seg2, self.sjw, self.brp]
    }

    /// The value whose words are the first 5 of `ws`.
    pub open spec fn from_words(ws: Seq<u32>) -> DeviceBitTiming {
        DeviceBitTiming { prop_seg: ws[0], phase_seg1: ws[1], phase_seg2: ws[2], sjw: ws[3], brp: ws[4] }
    }

    /// The 20 bytes laid out as the device expects.
    pub fn to_bytes(&self) -> (r: Vec<u8>)
        ensures
            r@ == words_bytes(self.words()),
    {
        let ws: Vec<u32> = vec![self.prop_seg, self.phase_seg1, self.phase_seg2, self.sjw, self.brp];
        assert(ws@ =~= self.words());
        write_words(ws.as_slice())
    }

    /// The words written out and read back give the value back.
    pub proof fn lemma_words_roundtrip(self)
        ensures
            Self::from_words(le32_words(words_bytes(self.words()))) == self,
            self.words().len() == 5,
    {
        lemma_words_roundtrip(self.words());
        self.lemma_from_words();
    }

    /// The value is the one its own words make.
    proof fn lemma_from_words(self)
        ensures
            Self::from_words(self.words()) == self,
    {
    }
}

impl CanBitTimingConst {
    /// The words in layout order.
    pub open spec fn words(self) -> Seq<u32> {
        seq![self.tseg1_min, self.tseg1_max, self.tseg2_min, self.tseg2_max, self.sjw_max, self.brp_min, self.brp_max, self.brp_inc]
    }

    /// The value whose words are the first 8 of `ws`.
    pub open spec fn from_words(ws: Seq<u32>) -> CanBitTimingConst {
        CanBitTimingConst { tseg1_min: ws[0], tseg1_max: ws[1], tseg2_min: ws[2], tseg2_max: ws[3], sjw_max: ws[4], brp_min: ws[5], brp_max: ws[6], brp_inc: ws[7] }
    }

    /// The 32 bytes laid out as the device expects.
    pub fn to_bytes(&self) -> (r: Vec<u8>)
        ensures
            r@ == words_bytes(self.words()),
    {
        let ws: Vec<u32> = vec![self.tseg1_min, self.tseg1_max, self.tseg2_min, self.tseg2_max, self.sjw_max, self.brp_min, self.brp_max, self.brp_inc];
        assert(ws@ =~= self.words());
        write_words(ws.as_slice())
    }

    /// Read from exactly 32 bytes; `None` for any other length.
    pub fn from_bytes(b: &[u8]) -> (r: Option<CanBitTimingConst>)
        ensures
            r is Some <==> b@.len() == 32,
            r matches Some(x) ==> x == CanBitTimingConst::from_words(le32_words(b@)),
    {
        if b.len() != 32 {
            return None;
        }
        let w = read_words(b);
        let x = CanBitTimingConst { tseg1_min: w[0], tseg1_max: w[1], tseg2_min: w[2], tseg2_max: w[3], sjw_max: w[4], brp_min: w[5], brp_max: w[6], brp_inc: w[7] };
        proof {
            assert(w@.len() == 8);
        }
        Some(x)
    }

    /// The words written out and read back give the value back.
    pub proof fn lemma_words_roundtrip(self)
        ensures
            Self::from_words(le32_words(words_bytes(self.words()))) == self,
            self.words().len() == 8,
    {
        lemma_words_roundtrip(self.words());
        self.lemma_from_words();
    }

    /// The value is the one its own words make.
    proof fn lemma_from_words(self)
        ensures
            Self::from_words(self.words()) == self,
    {
    }
}

impl DeviceBitTimingConst {
    /// The words in layout order.
    pub open spec fn words(self) -> Seq<u32> {
        seq![self.features.0, self.fclk_can] + self.timing.words()
    }

    /// The value whose words are the first 10 of `ws`.
    pub open spec fn from_words(ws: Seq<u32>) -> DeviceBitTimingConst {
        DeviceBitTimingConst { features: Features(ws[0]), fclk_can: ws[1], timing: CanBitTimingConst::from_words(ws.subrange(2, 10)) }
    }

    /// The 40 bytes laid out as the device expects.
    pub fn to_bytes(&self) -> (r: Vec<u8>)
        ensures
            r@ == words_bytes(self.words()),
    {
        let ws: Vec<u32> = vec![self.features.0, self.fclk_can, self.timing.tseg1_min, self.timing.tseg1_max, self.timing.tseg2_min, self.timing.tseg2_max, self.timing.sjw_max, self.timing.brp_min, self.timing.brp_max, self.timing.brp_inc];
        assert(ws@ =~= self.words());
        write_words(ws.as_slice())
    }

    /// Read from exactly 40 bytes; `None` for any other length.
    pub fn from_bytes(b: &[u8]) -> (r: Option<DeviceBitTimingConst>)
        ensures
            r is Some <==> b@.len() == 40,
            r matches Some(x) ==> x == DeviceBitTimingConst::from_words(le32_words(b@)),
    {
        if b.len() != 40 {
            return None;
        }
        let w = read_words(b);
        let x = DeviceBitTimingConst { features: Features(w[0]), fclk_can: w[1], timing: CanBitTimingConst { tseg1_min: w[2], tseg1_max: w[3], tseg2_min: w[4], tseg2_max: w[5], sjw_max: w[6], brp_min: w[7], brp_max: w[8], brp_inc: w[9] } };
        proof {
            assert(w@.len() == 10);
        }
        Some(x)
    }

    /// The words written out and read back give the value back.
    pub proof fn lemma_words_roundtrip(self)
        ensures
            Self::from_words(le32_words(words_bytes(self.words()))) == self,
            self.words().len() == 10,
    {
        lemma_words_roundtrip(self.words());
        self.lemma_from_words();
    }

    /// The value is the one its own words make.
    proof fn lemma_from_words(self)
        ensures
            Self::from_words(self.words()) == self,
    {
        self.timing.lemma_from_words();
        assert(self.words().subrange(2, 10) =~= self.timing.words());
    }
}

impl DeviceBitTimingConstExtended {
    /// The words in layout order.
    pub open spec fn words(self) -> Seq<u32> {
        seq![self.features.0, self.fclk_can] + self.timing_nominal.words() + self.timing_data.words()
    }

    /// The value whose words are the first 18 of `ws`.
    pub open spec fn from_words(ws: Seq<u32>) -> DeviceBitTimingConstExtended {
        DeviceBitTimingConstExtended { features: Features(ws[0]), fclk_can: ws[1], timing_nominal: CanBitTimingConst::from_words(ws.subrange(2, 10)), timing_data: CanBitTimingConst::from_words(ws.subrange(10, 18)) }
    }

    /// The 72 bytes laid out as the device expects.
    pub fn to_bytes(&self) -> (r: Vec<u8>)
        ensures
            r@ == words_bytes(self.words()),
    {
        let ws: Vec<u32> = vec![self.features.0, self.fclk_can, self.timing_nominal.tseg1_min, self.timing_nominal.tseg1_max, self.timing_nominal.tseg2_min, self.timing_nominal.tseg2_max, self.timing_nominal.sjw_max, self.timing_nominal.brp_min, self.timing_nominal.brp_max, self.timing_nominal.brp_inc, self.timing_data.tseg1_min, self.timing_data.tseg1_max, self.timing_data.tseg2_min, self.timing_data.tseg2_max, self.timing_data.sjw_max, self.timing_data.brp_min, self.timing_data.brp_max, self.timing_data.brp_inc];
        assert(ws@ =~= self.words());
        write_words(ws.as_slice())
    }

    /// Read from exactly 72 bytes; `None` for any other length.
    pub fn from_bytes(b: &[u8]) -> (r: Option<DeviceBitTimingConstExtended>)
        ensures
            r is Some <==> b@.len() == 72,
            r matches Some(x) ==> x == DeviceBitTimingConstExtended::from_words(le32_words(b@)),
    {
        if b.len() != 72 {
            return None;
        }
        let w = read_words(b);
        let x = DeviceBitTimingConstExtended { features: Features(w[0]), fclk_can: w[1], timing_nominal: CanBitTimingConst { tseg1_min: w[2], tseg1_max: w[3], tseg2_min: w[4], tseg2_max: w[5], sjw_max: w[6], brp_min: w[7], brp_max: w[8], brp_inc: w[9] }, timing_data: CanBitTimingConst { tseg1_min: w[10], tseg1_max: w[11], tseg2_min: w[12], tseg2_max: w[13], sjw_max: w[14], brp_min: w[15], brp_max: w[16], brp_inc: w[17] } };
        proof {
            assert(w@.len() == 18);
        }
        Some(x)
    }

    /// The words written out and read back give the value back.
    pub proof fn lemma_words_roundtrip(self)
        ensures
            Self::from_words(le32_words(words_bytes(self.words()))) == self,
            self.words().len() == 18,
    {
        lemma_words_roundtrip(self.words());
        self.lemma_from_words();
    }

    /// The value is the one its own words make.
    proof fn lemma_from_words(self)
        ensures
            Self::from_words(self.words()) == self,
    {
        self.timing_nominal.lemma_from_words();
        assert(self.words().subrange(2, 10) =~= self.timing_nominal.words());
        self.timing_data.lemma_from_words();
        assert(self.words().subrange(10, 18) =~= self.timing_data.words());
    }
}

impl IdentifyMode {
    /// The words in layout order.
    pub open spec fn words(self) -> Seq<u32> {
        seq![self.mode]
    }

    /// The value whose words are the first 1 of `ws`.
    pub open spec fn from_words(ws: Seq<u32>) -> IdentifyMode {
        IdentifyMode { mode: ws[0] }
    }

    /// The 4 bytes laid out as the device expects.
    pub fn to_bytes(&self) -> (r: Vec<u8>)
        ensures
            r@ == words_bytes(self.words()),
    {
        let ws: Vec<u32> = vec![self.mode];
        assert(ws@ =~= self.words());
        write_words(ws.as_slice())
    }

    /// Read from exactly 4 bytes; `None` for any other length.
    pub fn from_bytes(b: &[u8]) -> (r: Option<IdentifyMode>)
        ensures
            r is Some <==> b@.len() == 4,
            r matches Some(x) ==> x == IdentifyMode::from_words(le32_words(b@)),
    {
        if b.len() != 4 {
            return None;
        }
        let w = read_words(b);
        let x = IdentifyMode { mode: w[0] };
        proof {
            assert(w@.len() == 1);
        }
        Some(x)
    }

    /// The words written out and read back give the value back.
    pub proof fn lemma_words_roundtrip(self)
        ensures
            Self::from_words(le32_words(words_bytes(self.words()))) == self,
            self.words().len() == 1,
    {
        lemma_words_roundtrip(self.words());
        self.lemma_from_words();
    }

    /// The value is the one its own words make.
    proof fn lemma_from_words(self)
        ensures
            Self::from_words(self.words()) == self,
    {
    }
}

impl DeviceTerminationState {
    /// The words in layout order.
    pub open spec fn words(self) -> Seq<u32> {
        seq![self.state]
    }

    /// The value whose words are the first 1 of `ws`.
    pub open spec fn from_words(ws: Seq<u32>) -> DeviceTerminationState {
        DeviceTerminationState { state: ws[0] }
    }

    /// The 4 bytes laid out as the device expects.
    pub fn to_bytes(&self) -> (r: Vec<u8>)
        ensures
            r@ == words_bytes(self.words()),
    {
        let ws: Vec<u32> = vec![self.state];
        assert(ws@ =~= self.words());
        write_words(ws.as_slice())
    }

    /// Read from exactly 4 bytes; `None` for any other length.
    pub fn from_bytes(b: &[u8]) -> (r: Option<DeviceTerminationState>)
        ensures
            r is Some <==> b@.len() == 4,
            r matches Some(x) ==> x == DeviceTerminationState::from_words(le32_words(b@)),
    {
        if b.len() != 4 {
            return None;
        }
        let w = read_words(b);
        let x = DeviceTerminationState { state: w[0] };
        proof {
            assert(w@.len() == 1);
        }
        Some(x)
    }

    /// The words written out and read back give the value back.
    pub proof fn lemma_words_roundtrip(self)
        ensures
            Self::from_words(le32_words(words_bytes(self.words()))) == self,
            self.words().len() == 1,
    {
        lemma_words_roundtrip(self.words());
        self.lemma_from_words();
    }

    /// The value is the one its own words make.
    proof fn lemma_from_words(self)
        ensures
            Self::from_words(self.words()) == self,
    {
    }
}

/// The largest RX/TX error count a state allows, as the states' documentation
/// gives it (`< 96`, `< 128`, `< 256`); bus-off and the inactive states have
/// no bound.
pub open spec fn error_count_bound(s: CanState) -> Option<int> {
    match s {
        CanState::Active => Some(95),
        CanState::Warning => Some(127),
        CanState::Passive => Some(255),
        _ => None,
    }
}

/// The gs_usb state codes follow the order of the states: 0 active,
/// 1 warning, 2 passive, 3 bus-off, 4 stopped, 5 sleeping; no other code
/// names a state. So the active states' error-count bounds grow with the
/// code, and distinct codes name distinct states.
pub proof fn lemma_state_codes(c: u32, c2: u32)
    ensures
        (spec_can_state(c) is Some) == (c <= 5),
        c < 6 ==> spec_can_state(c) == Some(
            seq![
                CanState::Active,
                CanState::Warning,
                CanState::Passive,
                CanState::BusOff,
                CanState::Stopped,
                CanState::Sleeping,
            ][c as int],
        ),
        c < c2 <= 2 ==> error_count_bound(spec_can_state(c)->0)->0 < error_count_bound(
            spec_can_state(c2)->0,
        )->0,
        c <= 2 ==> error_count_bound(spec_can_state(c)->0) is Some,
        c != c2 && c <= 5 && c2 <= 5 ==> spec_can_state(c) != spec_can_state(c2),
{
}

} // verus!
