//! Driver logic for USB-CAN adapters that speak the Geschwister Schneider
//! (gs_usb) protocol.

pub mod protocol;
pub mod frame;

pub use frame::{Frame, FrameFlags};
pub use protocol::{
    CanBitTimingConst, CanState, ControlRequest, DeviceBitTiming, DeviceBitTimingConst,
    DeviceBitTimingConstExtended, DeviceConfig, DeviceMode, DeviceState, DeviceTerminationState,
    Features, HostConfig, IdentifyMode,
};

use crate::timing::{search, SearchRanges};
use core::ops::BitOrAssign;
use protocol::spec_can_state;
use vstd::prelude::*;

verus! {

/// A supported adapter: its name and USB ids.
#[derive(Debug, Clone, Copy)]
pub struct DeviceId {
    pub name: &'static str,
    pub vendor_id: u16,
    pub product_id: u16,
}

impl DeviceId {
    /// A supported adapter.
    pub fn new(name: &'static str, vendor_id: u16, product_id: u16) -> (r: DeviceId)
        ensures
            r.name == name,
            r.vendor_id == vendor_id,
            r.product_id == product_id,
    {
        Self { name, vendor_id, product_id }
    }
}

/// The USB ids of the supported adapters, in table order.
pub open spec fn spec_device_ids() -> Seq<(u16, u16)> {
    seq![(0x1d50u16, 0x606fu16), (0x1209, 0x2323), (0x1cd2, 0x606f), (0x1cd2, 0x16d0), (0x16d0, 0x0f30)]
}

/// The supported adapters.
pub fn devices() -> (r: Vec<DeviceId>)
    ensures
        r@.len() == spec_device_ids().len(),
        forall|i: int|
            0 <= i < r@.len() ==> (#[trigger] r@[i]).vendor_id == spec_device_ids()[i].0
                && r@[i].product_id == spec_device_ids()[i].1,
        r@[0].name == "Geschwister Schneider",
        r@[1].name == "CANdleLight",
        r@[2].name == "CES CANext FD",
        r@[3].name == "ABE CAN Debugger FD",
        r@[4].name == "Xylanta Saint3",
{
    let r = vec![
        DeviceId::new("Geschwister Schneider", 0x1d50, 0x606f),
        DeviceId::new("CANdleLight", 0x1209, 0x2323),
        DeviceId::new("CES CANext FD", 0x1cd2, 0x606f),
        DeviceId::new("ABE CAN Debugger FD", 0x1cd2, 0x16d0),
        DeviceId::new("Xylanta Saint3", 0x16d0, 0x0f30),
    ];
    r
}

/// Whether the USB ids belong to a supported adapter.
pub fn is_supported(vendor_id: u16, product_id: u16) -> (r: bool)
    ensures
        r <==> spec_device_ids().contains((vendor_id, product_id)),
{
    let table = devices();
    let mut i: usize = 0;
    while i < table.len()
        invariant
            i <= table@.len(),
            table@.len() == spec_device_ids().len(),
            forall|k: int|
                0 <= k < table@.len() ==> (#[trigger] table@[k]).vendor_id == spec_device_ids()[k].0
                    && table@[k].product_id == spec_device_ids()[k].1,
            forall|k: int| 0 <= k < i ==> spec_device_ids()[k] != (vendor_id, product_id),
        decreases table@.len() - i,
    {
        if table[i].vendor_id == vendor_id && table[i].product_id == product_id {
            assert(spec_device_ids()[i as int] == (vendor_id, product_id));
            return true;
        }
        i = i + 1;
    }
    false
}

/// Why a device's answer could not be used.
#[derive(Debug, Clone, Copy, PartialEq, Eq, Structural)]
pub enum ProtocolErrorKind {
    /// Response size invalid.
    ResponseSize,
    /// Enum value invalid.
    EnumValue,
}

/// The search ranges a channel's bit-timing limits give.
pub open spec fn spec_ranges(timing: CanBitTimingConst) -> SearchRanges {
    SearchRanges {
        brp_min: timing.brp_min,
        brp_max: timing.brp_max,
        tseg1_min: timing.tseg1_min,
        tseg1_max: timing.tseg1_max,
        tseg2_min: timing.tseg2_min,
        tseg2_max: timing.tseg2_max,
    }
}

/// The bit timing used when the limits leave no candidate.
pub open spec fn default_timing() -> DeviceBitTiming {
    DeviceBitTiming { prop_seg: 1, phase_seg1: 13, phase_seg2: 2, sjw: 1, brp: 4 }
}

/// Evaluating every candidate the limits allow neither divides by zero nor
/// overflows.
pub fn timing_computable(timing: &CanBitTimingConst) -> (r: bool)
    ensures
        r == spec_ranges(*timing).computable(),
{
    if !(timing.brp_min <= timing.brp_max && timing.tseg1_min <= timing.tseg1_max
        && timing.tseg2_min <= timing.tseg2_max) {
        return true;
    }
    if timing.brp_min < 1 {
        return false;
    }
    let tq: u64 = 1 + timing.tseg1_max as u64 + timing.tseg2_max as u64;
    let b: u128 = timing.brp_max as u128;
    let t: u128 = tq as u128;
    assert(b * t <= 0xffff_ffff * 0x1_ffff_ffff) by (nonlinear_arith)
        requires
            b <= 0xffff_ffff,
            t <= 0x1_ffff_ffff,
    ;
    let product: u128 = b * t;
    product <= 0xffff_ffffu128
}

/// Calculate the best approximation for bit timing values: the first
/// candidate, in `(brp, tseg1, tseg2)` order, whose bitrate is closest to
/// `bitrate`, with one time quantum of propagation segment and
/// `sjw = min(tseg2, 4)`; the default timing when the limits allow none.
pub fn timing_from_bitrate(bitrate: u32, timing: &CanBitTimingConst, fclk: u32) -> (r: DeviceBitTiming)
    requires
        spec_ranges(*timing).computable(),
    ensures
        !spec_ranges(*timing).nonempty() ==> r == default_timing(),
        spec_ranges(*timing).nonempty() ==> {
            &&& spec_ranges(*timing).is_best(
                fclk as int,
                bitrate as int,
                r.brp as int,
                r.phase_seg1 as int,
                r.phase_seg2 as int,
            )
            &&& r.prop_seg == 1
            &&& r.sjw == (if r.phase_seg2 < 4 { r.phase_seg2 } else { 4 })
        },
{
    let ranges = SearchRanges {
        brp_min: timing.brp_min,
        brp_max: timing.brp_max,
        tseg1_min: timing.tseg1_min,
        tseg1_max: timing.tseg1_max,
        tseg2_min: timing.tseg2_min,
        tseg2_max: timing.tseg2_max,
    };
    match search(fclk, bitrate, &ranges, false) {
        Some((brp, tseg1, tseg2)) => DeviceBitTiming {
            prop_seg: 1,
            phase_seg1: tseg1,
            phase_seg2: tseg2,
            sjw: if tseg2 < 4 { tseg2 } else { 4 },
            brp,
        },
        None => DeviceBitTiming { prop_seg: 1, phase_seg1: 13, phase_seg2: 2, sjw: 1, brp: 4 },
    }
}

/// Interface configuration options
#[derive(Debug, Clone, Copy, Default)]
pub struct ChannelOptions {
    /// Do not transmit frames.
    pub listen_only: bool,
    /// Receive sent frames.
    pub loopback: bool,
    /// Sample 3 time quanta instead of 1 for better signal integrity.
    pub triple_sample: bool,
    /// Don't retry transmission.
    pub one_shot: bool,
    /// Hardware timestamp for received frames.
    pub hw_timestamp: bool,
    /// Receive FD frames.
    pub fd: bool,
}

/// The feature bits the options ask for.
pub open spec fn spec_option_bits(o: ChannelOptions) -> u32 {
    (if o.listen_only { 1u32 } else { 0u32 }) | (if o.loopback { 2u32 } else { 0u32 }) | (if o.triple_sample {
        4u32
    } else {
        0u32
    }) | (if o.one_shot { 8u32 } else { 0u32 }) | (if o.hw_timestamp { 16u32 } else { 0u32 }) | (
    if o.fd {
        256u32
    } else {
        0u32
    })
}

/// The mode that starts a channel with `options`: each option turns on its
/// feature flag.
pub fn start_mode(options: &ChannelOptions) -> (r: DeviceMode)
    ensures
        r.mode == DeviceMode::MODE_START,
        r.flags.0 == spec_option_bits(*options),
{
    let mut features = Features::new();
    if options.listen_only {
        features.bitor_assign(Features::flag_listen_only());
    }
    if options.loopback {
        features.bitor_assign(Features::flag_loop_back());
    }
    if options.triple_sample {
        features.bitor_assign(Features::flag_triple_sample());
    }
    if options.one_shot {
        features.bitor_assign(Features::flag_one_shot());
    }
    if options.hw_timestamp {
        features.bitor_assign(Features::flag_hw_timestamp());
    }
    if options.fd {
        features.bitor_assign(Features::flag_fd());
    }
    proof {
        let o = *options;
        let a: u32 = if o.listen_only { 1 } else { 0 };
        let b: u32 = if o.loopback { 2 } else { 0 };
        let c: u32 = if o.triple_sample { 4 } else { 0 };
        let d: u32 = if o.one_shot { 8 } else { 0 };
        let e: u32 = if o.hw_timestamp { 16 } else { 0 };
        let f: u32 = if o.fd { 256 } else { 0 };
        assert(1u32 << 0u32 == 1 && 1u32 << 1u32 == 2 && 1u32 << 2u32 == 4 && 1u32 << 3u32 == 8
            && 1u32 << 4u32 == 16 && 1u32 << 8u32 == 256) by (bit_vector);
        assert(0u32 | a == a && (a | 0u32) == a && (a | b) | 0u32 == a | b
            && ((a | b) | c) | 0u32 == (a | b) | c && (((a | b) | c) | d) | 0u32 == ((a | b) | c) | d
            && ((((a | b) | c) | d) | e) | 0u32 == (((a | b) | c) | d) | e) by (bit_vector);
    }
    DeviceMode { mode: DeviceMode::MODE_START, flags: features }
}

/// The mode that resets a channel.
pub fn reset_mode() -> (r: DeviceMode)
    ensures
        r.mode == DeviceMode::MODE_RESET,
        r.flags.0 == 0,
{
    DeviceMode { mode: DeviceMode::MODE_RESET, flags: Features::new() }
}

/// Channel state and error counters.
#[derive(Debug, Clone, Copy)]
pub struct State {
    pub state: CanState,
    /// Receive error count.
    pub rx_errors: u32,
    /// Transmit error count.
    pub tx_errors: u32,
}

/// The channel state a device's answer reports: `ResponseSize` unless the
/// answer is exactly one state structure, `EnumValue` when its state code
/// names no state.
pub fn state_from_response(response: &[u8]) -> (r: Result<State, ProtocolErrorKind>)
    ensures
        response@.len() != 12 ==> r == Err::<State, ProtocolErrorKind>(ProtocolErrorKind::ResponseSize),
        response@.len() == 12 ==> {
            let d = DeviceState::from_words(crate::bytes::le32_words(response@));
            match spec_can_state(d.state) {
                None => r == Err::<State, ProtocolErrorKind>(ProtocolErrorKind::EnumValue),
                Some(s) => r matches Ok(st) && st.state == s && st.rx_errors == d.rx_errors
                    && st.tx_errors == d.tx_errors,
            }
        },
{
    let device_state = match DeviceState::from_bytes(response) {
        Some(d) => d,
        None => return Err(ProtocolErrorKind::ResponseSize),
    };
    match device_state.state() {
        Some(state) => Ok(State { state, rx_errors: device_state.rx_errors, tx_errors: device_state.tx_errors }),
        None => Err(ProtocolErrorKind::EnumValue),
    }
}

/// Starting a channel sets the gs_usb feature bits of the options asked for
/// and no other: listen-only bit 0, loop-back bit 1, triple sampling bit 2,
/// one-shot bit 3, hardware timestamps bit 4 and FD bit 8.
pub proof fn lemma_start_bits(o: ChannelOptions)
    ensures
        ({
            let w = spec_option_bits(o);
            &&& (w & (1u32 << 0u32) != 0) == o.listen_only
            &&& (w & (1u32 << 1u32) != 0) == o.loopback
            &&& (w & (1u32 << 2u32) != 0) == o.triple_sample
            &&& (w & (1u32 << 3u32) != 0) == o.one_shot
            &&& (w & (1u32 << 4u32) != 0) == o.hw_timestamp
            &&& (w & (1u32 << 8u32) != 0) == o.fd
            &&& w & !0x11Fu32 == 0
        }),
{
    let a: u32 = if o.listen_only { 1 } else { 0 };
    let b: u32 = if o.loopback { 2 } else { 0 };
    let c: u32 = if o.triple_sample { 4 } else { 0 };
    let d: u32 = if o.one_shot { 8 } else { 0 };
    let e: u32 = if o.hw_timestamp { 16 } else { 0 };
    let f: u32 = if o.fd { 256 } else { 0 };
    let w = spec_option_bits(o);
    assert(w == a | b | c | d | e | f);
    assert((a == 0 || a == 1) && (b == 0 || b == 2) && (c == 0 || c == 4) && (d == 0 || d == 8) && (
    e == 0 || e == 16) && (f == 0 || f == 256) && w == a | b | c | d | e | f ==> {
        &&& (w & (1u32 << 0u32) != 0) == (a == 1)
        &&& (w & (1u32 << 1u32) != 0) == (b == 2)
        &&& (w & (1u32 << 2u32) != 0) == (c == 4)
        &&& (w & (1u32 << 3u32) != 0) == (d == 8)
        &&& (w & (1u32 << 4u32) != 0) == (e == 16)
        &&& (w & (1u32 << 8u32) != 0) == (f == 256)
        &&& w & !0x11Fu32 == 0
    }) by (bit_vector);
}

} // verus!
