//! Driver logic for the 8Devices Korlan USB2CAN: command and data message
//! layouts, bit timing, and the decoding of received records.

use crate::bytes::{be16_bytes, be32, be32_bytes, u16_to_be, u32_from_be, u32_to_be};
use crate::timing::{search, SearchRanges};
use vstd::prelude::*;

verus! {

/// USB vendor id.
pub const VENDOR_ID: u16 = 0x0483;
/// USB product id.
pub const PRODUCT_ID: u16 = 0x1234;

/// Endpoint 1 IN: received data.
pub const EP_DATA_RX: u8 = 0x81;
/// Endpoint 2 OUT: data to send.
pub const EP_DATA_TX: u8 = 0x02;
/// Endpoint 3 IN: command responses.
pub const EP_CMD_RX: u8 = 0x83;
/// Endpoint 4 OUT: commands.
pub const EP_CMD_TX: u8 = 0x04;

/// The controller clock.
pub const ABP_CLOCK: u32 = 32_000_000;

/// Channel flag: listen only.
pub const FLAG_SILENT: u32 = 0x01;
/// Channel flag: loop back.
pub const FLAG_LOOPBACK: u32 = 0x02;
/// Channel flag: no automatic retransmission.
pub const FLAG_NO_AUTO_RETRANSMIT: u32 = 0x04;
/// Channel flag: report status frames.
pub const FLAG_STATUS_FRAME: u32 = 0x08;

/// Command: reset.
pub const CMD_RESET: u8 = 1;
/// Command: open the channel.
pub const CMD_OPEN: u8 = 2;
/// Command: close the channel.
pub const CMD_CLOSE: u8 = 3;
/// Command: read software and hardware versions.
pub const CMD_GET_SOFTW_HARDW_VER: u8 = 12;
/// Open option: bit timing given by hand.
pub const BAUD_MANUAL: u8 = 0x09;
/// First byte of a command message.
pub const CMD_START: u8 = 0x11;
/// Last byte of a command message.
pub const CMD_END: u8 = 0x22;

/// First byte of a data message.
pub const DATA_START: u8 = 0x55;
/// Last byte of a data message.
pub const DATA_END: u8 = 0xAA;
/// Record type: CAN frame.
pub const TYPE_CAN_FRAME: u8 = 0;
/// Record type: error frame.
pub const TYPE_ERROR_FRAME: u8 = 3;
/// Frame flag: extended identifier.
pub const FLAG_EXTID: u8 = 0x01;
/// Frame flag: remote frame.
pub const FLAG_RTR: u8 = 0x02;
/// Frame flag: error frame.
pub const FLAG_ERR: u8 = 0x04;

/// Bus status: ok.
pub const STATUS_OK: u8 = 0x00;
/// Bus status: overrun.
pub const STATUS_OVERRUN: u8 = 0x01;
/// Bus status: error warning.
pub const STATUS_BUSLIGHT: u8 = 0x02;
/// Bus status: error passive.
pub const STATUS_BUSHEAVY: u8 = 0x03;
/// Bus status: bus off.
pub const STATUS_BUSOFF: u8 = 0x04;
/// Bus status: stuff error.
pub const STATUS_STUFF: u8 = 0x20;
/// Bus status: form error.
pub const STATUS_FORM: u8 = 0x21;
/// Bus status: acknowledgement error.
pub const STATUS_ACK: u8 = 0x23;
/// Bus status: bit 0 error.
pub const STATUS_BIT0: u8 = 0x24;
/// Bus status: bit 1 error.
pub const STATUS_BIT1: u8 = 0x25;
/// Bus status: CRC error.
pub const STATUS_CRC: u8 = 0x27;

/// Length of a command message.
pub const CMD_MSG_LEN: usize = 16;
/// Length of a transmitted data message.
pub const TX_MSG_LEN: usize = 16;
/// Length of a received data record.
pub const RX_MSG_LEN: usize = 21;

/// Command message: 16 bytes, big-endian multi-byte fields.
#[derive(Clone, Copy, Debug)]
pub struct CmdMsg {
    pub begin: u8,
    /// Always 0.
    pub channel: u8,
    /// Command to execute.
    pub command: u8,
    /// Optional parameter or return value.
    pub opt1: u8,
    /// Optional parameter.
    pub opt2: u8,
    /// Optional parameters and data.
    pub data: [u8; 10],
    pub end: u8,
}

impl CmdMsg {
    /// The message's 16 bytes.
    pub open spec fn spec_bytes(self) -> Seq<u8> {
        seq![self.begin, self.channel, self.command, self.opt1, self.opt2] + self.data@ + seq![self.end]
    }

    /// `m` is the message the first 16 bytes of `b` hold.
    pub open spec fn reads_as(b: Seq<u8>, m: CmdMsg) -> bool {
        &&& b.len() >= CMD_MSG_LEN
        &&& m.spec_bytes() == b.take(CMD_MSG_LEN as int)
    }

    /// A command message for `command` with all parameters zero.
    pub fn new(command: u8) -> (r: CmdMsg)
        ensures
            r.begin == CMD_START,
            r.channel == 0,
            r.command == command,
            r.opt1 == 0,
            r.opt2 == 0,
            r.data@ == Seq::new(10, |i: int| 0u8),
            r.end == CMD_END,
    {
        let r = Self { begin: CMD_START, channel: 0, command, opt1: 0, opt2: 0, data: [0u8; 10], end: CMD_END };
        assert(r.data@ =~= Seq::new(10, |i: int| 0u8));
        r
    }

    /// The message's bytes.
    pub fn to_bytes(self) -> (r: [u8; CMD_MSG_LEN])
        ensures
            r@ == self.spec_bytes(),
    {
        let d = self.data;
        let r = [
            self.begin,
            self.channel,
            self.command,
            self.opt1,
            self.opt2,
            d[0],
            d[1],
            d[2],
            d[3],
            d[4],
            d[5],
            d[6],
            d[7],
            d[8],
            d[9],
            self.end,
        ];
        assert(r@ =~= self.spec_bytes());
        r
    }

    /// The message at the start of `buf`; `None` when it holds fewer than 16 bytes.
    pub fn from_bytes(buf: &[u8]) -> (r: Option<CmdMsg>)
        ensures
            r is Some <==> buf@.len() >= CMD_MSG_LEN,
            r matches Some(m) ==> Self::reads_as(buf@, m),
    {
        if buf.len() < CMD_MSG_LEN {
            return None;
        }
        let data = [buf[5], buf[6], buf[7], buf[8], buf[9], buf[10], buf[11], buf[12], buf[13], buf[14]];
        let m = CmdMsg {
            begin: buf[0],
            channel: buf[1],
            command: buf[2],
            opt1: buf[3],
            opt2: buf[4],
            data,
            end: buf[15],
        };
        assert(m.spec_bytes() =~= buf@.take(16));
        Some(m)
    }

    /// The message its own bytes hold is the message itself.
    pub proof fn lemma_bytes_roundtrip(self, other: CmdMsg)
        requires
            Self::reads_as(self.spec_bytes(), other),
        ensures
            other == self,
    {
        let b = self.spec_bytes();
        let c = other.spec_bytes();
        assert(b.take(16) =~= b);
        assert(other.data@ =~= self.data@) by {
            assert forall|k: int| 0 <= k < 10 implies other.data@[k] == self.data@[k] by {
                assert(c[5 + k] == b[5 + k]);
            }
        }
        assert(other.data == self.data);
        assert(c[0] == b[0] && c[1] == b[1] && c[2] == b[2] && c[3] == b[3] && c[4] == b[4]
            && c[15] == b[15]);
    }
}

/// TX data message: 16 bytes.
#[derive(Clone, Copy, Debug)]
pub struct TxMsg {
    pub begin: u8,
    pub flags: u8,
    /// Identifier, big-endian.
    pub id: [u8; 4],
    pub dlc: u8,
    pub data: [u8; 8],
    pub end: u8,
}

impl TxMsg {
    /// The message's 16 bytes.
    pub open spec fn spec_bytes(self) -> Seq<u8> {
        seq![self.begin, self.flags] + self.id@ + seq![self.dlc] + self.data@ + seq![self.end]
    }

    /// The message's bytes.
    pub fn to_bytes(self) -> (r: [u8; TX_MSG_LEN])
        ensures
            r@ == self.spec_bytes(),
    {
        let i = self.id;
        let d = self.data;
        let r = [
            self.begin,
            self.flags,
            i[0],
            i[1],
            i[2],
            i[3],
            self.dlc,
            d[0],
            d[1],
            d[2],
            d[3],
            d[4],
            d[5],
            d[6],
            d[7],
            self.end,
        ];
        assert(r@ =~= self.spec_bytes());
        r
    }
}

/// A CAN frame.
#[derive(Debug, Clone, PartialEq, Eq)]
pub struct Frame {
    /// CAN identifier (11-bit standard or 29-bit extended).
    pub id: u32,
    /// Data bytes.
    pub data: [u8; 8],
    /// Data length code (0-8).
    pub dlc: u8,
    /// Extended (29-bit) identifier flag.
    pub ext: bool,
    /// Remote transmission request flag.
    pub rtr: bool,
}

/// A bus error/status event decoded from a device error frame.
#[derive(Debug, Clone, PartialEq, Eq, Structural)]
pub enum BusError {
    NoError,
    Overrun,
    BusLight { tx_err: u8, rx_err: u8 },
    BusHeavy { tx_err: u8, rx_err: u8 },
    BusOff,
    Stuff,
    Form,
    Ack,
    Bit0,
    Bit1,
    Crc,
    Unknown(u8),
}

/// Items that may be received from the device.
#[derive(Debug, Clone)]
pub enum CanMessage {
    Frame(Frame),
    Error(BusError),
}

/// Mode flags for opening a channel.
#[derive(Debug, Clone, Default)]
pub struct ChannelOptions {
    pub loopback: bool,
    pub listen_only: bool,
    pub no_auto_retransmit: bool,
}

/// Firmware + hardware version returned by the device.
#[derive(Debug, Clone)]
pub struct Version {
    pub fw_major: u8,
    pub fw_minor: u8,
    pub hw_major: u8,
    pub hw_minor: u8,
}

/// Bittiming parameters sent to the device during channel open.
#[derive(Debug, Clone)]
pub struct BitTiming {
    /// prop_seg + phase_seg1 (1-16).
    pub tseg1: u8,
    /// phase_seg2 (1-8).
    pub tseg2: u8,
    /// Synchronisation jump width (1-4).
    pub sjw: u8,
    /// Baud-rate prescaler (1-1024).
    pub brp: u16,
}

/// The hardware's bit-timing ranges: `brp` 1..=1024, `tseg1` 1..=16, `tseg2` 1..=8.
pub open spec fn spec_korlan_ranges() -> SearchRanges {
    SearchRanges { brp_min: 1, brp_max: 1024, tseg1_min: 1, tseg1_max: 16, tseg2_min: 1, tseg2_max: 8 }
}

impl BitTiming {
    /// Calculate bittiming parameters for the given bitrate against the device's
    /// 32 MHz clock, within the hardware ranges, with `sjw = min(tseg2, 4)`.
    ///
    /// Minimises the absolute bitrate error, preferring higher time-quantum
    /// counts (better sample-point accuracy) among equal-error candidates;
    /// among those, the first in `(brp, tseg1, tseg2)` order.
    pub fn from_bitrate(bitrate: u32) -> (r: BitTiming)
        ensures
            spec_korlan_ranges().is_best_by(
                true,
                ABP_CLOCK as int,
                bitrate as int,
                r.brp as int,
                r.tseg1 as int,
                r.tseg2 as int,
            ),
            r.sjw == (if r.tseg2 < 4 { r.tseg2 } else { 4 }),
    {
        let ranges = SearchRanges { brp_min: 1, brp_max: 1024, tseg1_min: 1, tseg1_max: 16, tseg2_min: 1, tseg2_max: 8 };
        match search(ABP_CLOCK, bitrate, &ranges, true) {
            Some((brp, tseg1, tseg2)) => {
                let sjw: u32 = if tseg2 < 4 { tseg2 } else { 4 };
                BitTiming { tseg1: tseg1 as u8, tseg2: tseg2 as u8, sjw: sjw as u8, brp: brp as u16 }
            },
            None => BitTiming { tseg1: 13, tseg2: 2, sjw: 1, brp: 4 },
        }
    }
}

/// The channel flags the options ask for; status frames are always on.
pub open spec fn spec_open_flags(opts: ChannelOptions) -> u32 {
    (FLAG_STATUS_FRAME + (if opts.loopback { FLAG_LOOPBACK } else { 0 }) + (if opts.listen_only {
        FLAG_SILENT
    } else {
        0
    }) + (if opts.no_auto_retransmit { FLAG_NO_AUTO_RETRANSMIT } else { 0 })) as u32
}

/// The command that opens the channel with bit timing `bt` and options
/// `opts`: manual baud option, then `tseg1`, `tseg2`, `sjw`, the prescaler
/// (big-endian) and the channel flags (big-endian) in the data bytes.
pub fn open_command(bt: &BitTiming, opts: &ChannelOptions) -> (r: CmdMsg)
    ensures
        r.begin == CMD_START,
        r.channel == 0,
        r.command == CMD_OPEN,
        r.opt1 == BAUD_MANUAL,
        r.opt2 == 0,
        r.data@ == seq![bt.tseg1, bt.tseg2, bt.sjw] + be16_bytes(bt.brp) + be32_bytes(
            spec_open_flags(*opts),
        ) + seq![0u8],
        r.end == CMD_END,
{
    let mut msg = CmdMsg::new(CMD_OPEN);
    msg.opt1 = BAUD_MANUAL;
    let brp_be = u16_to_be(bt.brp);
    let mut flags: u32 = FLAG_STATUS_FRAME;
    if opts.loopback {
        flags = flags + FLAG_LOOPBACK;
    }
    if opts.listen_only {
        flags = flags + FLAG_SILENT;
    }
    if opts.no_auto_retransmit {
        flags = flags + FLAG_NO_AUTO_RETRANSMIT;
    }
    let fb = u32_to_be(flags);
    msg.data = [bt.tseg1, bt.tseg2, bt.sjw, brp_be[0], brp_be[1], fb[0], fb[1], fb[2], fb[3], 0];
    assert(msg.data@ =~= seq![bt.tseg1, bt.tseg2, bt.sjw] + be16_bytes(bt.brp) + be32_bytes(
        spec_open_flags(*opts),
    ) + seq![0u8]);
    msg
}

/// A command response is usable: it holds a whole message, framed by the
/// start and end bytes, that reports success (`opt1` zero).
pub fn check_response(buf: &[u8]) -> (r: Option<CmdMsg>)
    ensures
        r is Some <==> buf@.len() >= CMD_MSG_LEN && buf@[0] == CMD_START && buf@[15] == CMD_END
            && buf@[3] == 0,
        r matches Some(m) ==> CmdMsg::reads_as(buf@, m),
{
    let resp = match CmdMsg::from_bytes(buf) {
        Some(m) => m,
        None => return None,
    };
    proof {
        assert(resp.spec_bytes()[0] == resp.begin && resp.spec_bytes()[3] == resp.opt1
            && resp.spec_bytes()[15] == resp.end);
    }
    if resp.begin != CMD_START || resp.end != CMD_END || resp.opt1 != 0 {
        return None;
    }
    Some(resp)
}

/// A stale command response is the reset acknowledgement: a whole message
/// for the reset command that reports success.
pub fn is_reset_ack(buf: &[u8]) -> (r: bool)
    ensures
        r <==> buf@.len() >= CMD_MSG_LEN && buf@[2] == CMD_RESET && buf@[3] == 0,
{
    if buf.len() >= CMD_MSG_LEN {
        if let Some(msg) = CmdMsg::from_bytes(buf) {
            proof {
                assert(msg.spec_bytes()[2] == msg.command && msg.spec_bytes()[3] == msg.opt1);
            }
            if msg.command == CMD_RESET && msg.opt1 == 0 {
                return true;
            }
        }
    }
    false
}

impl Version {
    /// The versions a version-command response carries in its first four data bytes.
    pub fn from_response(resp: &CmdMsg) -> (r: Version)
        ensures
            r.fw_major == resp.data@[0],
            r.fw_minor == resp.data@[1],
            r.hw_major == resp.data@[2],
            r.hw_minor == resp.data@[3],
    {
        Version { fw_major: resp.data[0], fw_minor: resp.data[1], hw_major: resp.data[2], hw_minor: resp.data[3] }
    }
}

/// The flags byte of a transmitted frame.
pub open spec fn spec_tx_flags(rtr: bool, ext: bool) -> u8 {
    ((if rtr { FLAG_RTR } else { 0 }) + (if ext { FLAG_EXTID } else { 0u8 })) as u8
}

/// The data message that sends `frame`: remote and extended flags, the
/// identifier's 29 bits big-endian, the length code capped at 8, the data.
pub fn tx_message(frame: &Frame) -> (r: TxMsg)
    ensures
        r.begin == DATA_START,
        r.flags == spec_tx_flags(frame.rtr, frame.ext),
        r.id@ == be32_bytes(frame.id & 0x1FFF_FFFF),
        r.dlc == (if frame.dlc < 8 { frame.dlc } else { 8 }),
        r.data == frame.data,
        r.end == DATA_END,
{
    let mut flags: u8 = 0;
    if frame.rtr {
        flags = flags + FLAG_RTR;
    }
    if frame.ext {
        flags = flags + FLAG_EXTID;
    }
    TxMsg {
        begin: DATA_START,
        flags,
        id: u32_to_be(frame.id & 0x1FFF_FFFF),
        dlc: if frame.dlc < 8 { frame.dlc } else { 8 },
        data: frame.data,
        end: DATA_END,
    }
}

/// The bus error that status `state` reports, with the error counters.
pub open spec fn spec_bus_error(state: u8, tx_err: u8, rx_err: u8) -> BusError {
    if state == STATUS_OK {
        BusError::NoError
    } else if state == STATUS_OVERRUN {
        BusError::Overrun
    } else if state == STATUS_BUSLIGHT {
        BusError::BusLight { tx_err, rx_err }
    } else if state == STATUS_BUSHEAVY {
        BusError::BusHeavy { tx_err, rx_err }
    } else if state == STATUS_BUSOFF {
        BusError::BusOff
    } else if state == STATUS_STUFF {
        BusError::Stuff
    } else if state == STATUS_FORM {
        BusError::Form
    } else if state == STATUS_ACK {
        BusError::Ack
    } else if state == STATUS_BIT0 {
        BusError::Bit0
    } else if state == STATUS_BIT1 {
        BusError::Bit1
    } else if state == STATUS_CRC {
        BusError::Crc
    } else {
        BusError::Unknown(state)
    }
}

/// The record is an error frame.
pub open spec fn rx_is_error(b: Seq<u8>) -> bool {
    b[1] == TYPE_ERROR_FRAME && b[2] == FLAG_ERR
}

/// The record holds a message: it is whole and is an error frame or a CAN frame.
pub open spec fn rx_parses(b: Seq<u8>) -> bool {
    b.len() >= RX_MSG_LEN && (rx_is_error(b) || b[1] == TYPE_CAN_FRAME)
}

/// `m` is the message record `b` holds: for an error frame, the status in
/// data byte 0 with the receive counter (low 7 bits of data byte 1) and the
/// transmit counter (data byte 2); for a CAN frame, the big-endian
/// identifier, the flags, the low 4 bits of the length code and the data.
pub open spec fn rx_message(b: Seq<u8>, m: CanMessage) -> bool {
    if rx_is_error(b) {
        m == CanMessage::Error(spec_bus_error(b[8], b[10], b[9] & 0x7F))
    } else {
        m matches CanMessage::Frame(f) && {
            &&& f.id == be32(b[3], b[4], b[5], b[6])
            &&& f.ext == (b[2] & FLAG_EXTID != 0)
            &&& f.rtr == (b[2] & FLAG_RTR != 0)
            &&& f.dlc == b[7] & 0xF
            &&& f.data@ == b.subrange(8, 16)
        }
    }
}

/// The bus error that status `state` reports.
fn bus_error(state: u8, tx_err: u8, rx_err: u8) -> (r: BusError)
    ensures
        r == spec_bus_error(state, tx_err, rx_err),
{
    if state == STATUS_OK {
        BusError::NoError
    } else if state == STATUS_OVERRUN {
        BusError::Overrun
    } else if state == STATUS_BUSLIGHT {
        BusError::BusLight { tx_err, rx_err }
    } else if state == STATUS_BUSHEAVY {
        BusError::BusHeavy { tx_err, rx_err }
    } else if state == STATUS_BUSOFF {
        BusError::BusOff
    } else if state == STATUS_STUFF {
        BusError::Stuff
    } else if state == STATUS_FORM {
        BusError::Form
    } else if state == STATUS_ACK {
        BusError::Ack
    } else if state == STATUS_BIT0 {
        BusError::Bit0
    } else if state == STATUS_BIT1 {
        BusError::Bit1
    } else if state == STATUS_CRC {
        BusError::Crc
    } else {
        BusError::Unknown(state)
    }
}

/// The message a received record holds; `None` for a short record or one
/// of another type.
pub fn parse_rx_msg(buf: &[u8]) -> (r: Option<CanMessage>)
    ensures
        r is Some <==> rx_parses(buf@),
        r matches Some(m) ==> rx_message(buf@, m),
{
    if buf.len() < RX_MSG_LEN {
        return None;
    }
    let msg_type = buf[1];
    let flags = buf[2];
    if msg_type == TYPE_ERROR_FRAME && flags == FLAG_ERR {
        let state = buf[8];
        let rx_err = buf[9] & 0x7F;
        let tx_err = buf[10];
        return Some(CanMessage::Error(bus_error(state, tx_err, rx_err)));
    }
    if msg_type == TYPE_CAN_FRAME {
        let id = u32_from_be(buf[3], buf[4], buf[5], buf[6]);
        let ext = (flags & FLAG_EXTID) != 0;
        let rtr = (flags & FLAG_RTR) != 0;
        let data = [buf[8], buf[9], buf[10], buf[11], buf[12], buf[13], buf[14], buf[15]];
        assert(data@ =~= buf@.subrange(8, 16));
        return Some(CanMessage::Frame(Frame { id, data, dlc: buf[7] & 0xF, ext, rtr }));
    }
    None
}

/// The bytes left after looking for a message in `b`: whole records are
/// taken from the front until one holds a message (which is taken too) or
/// fewer than a record's bytes remain.
pub open spec fn rx_rest(b: Seq<u8>) -> Seq<u8>
    decreases b.len(),
{
    if b.len() < RX_MSG_LEN {
        b
    } else if rx_parses(b.take(RX_MSG_LEN as int)) {
        b.skip(RX_MSG_LEN as int)
    } else {
        rx_rest(b.skip(RX_MSG_LEN as int))
    }
}

/// The first record of `b`, in whole-record steps, that holds a message.
pub open spec fn rx_found(b: Seq<u8>) -> Option<Seq<u8>>
    decreases b.len(),
{
    if b.len() < RX_MSG_LEN {
        None
    } else if rx_parses(b.take(RX_MSG_LEN as int)) {
        Some(b.take(RX_MSG_LEN as int))
    } else {
        rx_found(b.skip(RX_MSG_LEN as int))
    }
}

/// Take the next message from the receive buffer: whole records are
/// removed from its front until one holds a message; `None` when fewer than
/// a record's bytes are left before one does.
pub fn take_message(buf: &mut Vec<u8>) -> (r: Option<CanMessage>)
    ensures
        final(buf)@ == rx_rest(old(buf)@),
        r is Some <==> rx_found(old(buf)@) is Some,
        r matches Some(m) ==> rx_message(rx_found(old(buf)@)->0, m),
{
    while buf.len() >= RX_MSG_LEN
        invariant
            rx_rest(buf@) == rx_rest(old(buf)@),
            rx_found(buf@) == rx_found(old(buf)@),
        decreases buf@.len(),
    {
        let mut chunk = buf.split_off(RX_MSG_LEN);
        core::mem::swap(buf, &mut chunk);
        let ghost whole = chunk@ + buf@;
        proof {
            assert(whole.take(RX_MSG_LEN as int) =~= chunk@);
            assert(whole.skip(RX_MSG_LEN as int) =~= buf@);
        }
        if let Some(msg) = parse_rx_msg(chunk.as_slice()) {
            return Some(msg);
        }
    }
    None
}

/// The open-channel flags word: status frames always, `FLAG_SILENT` exactly
/// when listening only, `FLAG_LOOPBACK` exactly when looping back,
/// `FLAG_NO_AUTO_RETRANSMIT` exactly when retransmission is off, and no other
/// bit.
pub proof fn lemma_open_flags(opts: ChannelOptions)
    ensures
        ({
            let w = spec_open_flags(opts);
            &&& w & 0x08 != 0
            &&& (w & 0x01 != 0) == opts.listen_only
            &&& (w & 0x02 != 0) == opts.loopback
            &&& (w & 0x04 != 0) == opts.no_auto_retransmit
            &&& w & !0x0Fu32 == 0
        }),
{
    let w = spec_open_flags(opts);
    let a: u32 = if opts.listen_only { 1 } else { 0 };
    let b: u32 = if opts.loopback { 1 } else { 0 };
    let c: u32 = if opts.no_auto_retransmit { 1 } else { 0 };
    assert(w == 8 + 2 * b + a + 4 * c);
    assert(a <= 1 && b <= 1 && c <= 1 && w == 8 + 2 * b + a + 4 * c ==> {
        &&& w & 0x08 != 0
        &&& (w & 0x01 != 0) == (a == 1)
        &&& (w & 0x02 != 0) == (b == 1)
        &&& (w & 0x04 != 0) == (c == 1)
        &&& w & !0x0Fu32 == 0
    }) by (bit_vector);
}

/// A transmitted frame's flags byte: bit 1 (`FLAG_RTR`) exactly for a
/// remote frame, bit 0 (`FLAG_EXTID`) exactly for an extended identifier,
/// and no other bit.
pub proof fn lemma_tx_flags(rtr: bool, ext: bool)
    ensures
        ({
            let w = spec_tx_flags(rtr, ext);
            &&& (w & 0x02 != 0) == rtr
            &&& (w & 0x01 != 0) == ext
            &&& w & !0x03u8 == 0
        }),
{
    let a: u8 = if rtr { 2 } else { 0 };
    let b: u8 = if ext { 1 } else { 0 };
    let w = spec_tx_flags(rtr, ext);
    assert(w == a + b);
    assert((a == 0 || a == 2) && (b == 0 || b == 1) && w == a + b ==> {
        &&& (w & 0x02 != 0) == (a == 2)
        &&& (w & 0x01 != 0) == (b == 1)
        &&& w & !0x03u8 == 0
    }) by (bit_vector);
}

} // verus!
