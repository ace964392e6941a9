//! The gs_usb host frame: a 12-byte header followed by 68 bytes of payload
//! room (8 classic or 64 FD data bytes, then a timestamp).

use crate::bytes::{le32_bytes, lemma_le32_bytes_of, lemma_le32_roundtrip, padded, prefix, push_all, push_le32, read_le32, zeros};
use crate::can_id::{
    id_to_word, id_word, lemma_word_flags, ExtendedId, Id, StandardId, EFF_FLAG, EFF_MASK,
    EXTENDED_ID_MAX, RTR_FLAG, STANDARD_ID_MAX,
};
use vstd::prelude::*;

verus! {

/// Size of a host frame.
pub const FRAME_LEN: usize = 80;
/// Size of the header before the payload room.
pub const FRAME_HEADER_LEN: usize = 12;
/// Bytes a classic frame takes in a transfer: the header, 8 data bytes and
/// the 4-byte timestamp.
pub const CLASSIC_FRAME_LEN: usize = 24;

/// Frame flags.
#[derive(Debug, Clone, Copy, PartialEq, Eq, Structural)]
pub struct FrameFlags(pub u8);

impl FrameFlags {
    /// Receive overflow.
    pub const OVERFLOW_FLAG: u8 = 0x1;
    /// Bit-rate switch.
    pub const BRS_FLAG: u8 = 0x2;
    /// FD frame.
    pub const FDF_FLAG: u8 = 0x4;
    /// Error state indicator.
    pub const ESI_FLAG: u8 = 0x8;

    /// The FD flag is set.
    pub open spec fn spec_fd(self) -> bool {
        self.0 & Self::FDF_FLAG != 0
    }

    /// Overflow.
    pub fn overflow(&self) -> (r: bool)
        ensures
            r == (self.0 & Self::OVERFLOW_FLAG != 0),
    {
        (self.0 & Self::OVERFLOW_FLAG) != 0
    }

    /// Bitrate switching.
    pub fn brs(&self) -> (r: bool)
        ensures
            r == (self.0 & Self::BRS_FLAG != 0),
    {
        (self.0 & Self::BRS_FLAG) != 0
    }

    /// FD frame.
    pub fn fd(&self) -> (r: bool)
        ensures
            r == self.spec_fd(),
    {
        (self.0 & Self::FDF_FLAG) != 0
    }

    /// Error state indicator flag.
    pub fn esi(&self) -> (r: bool)
        ensures
            r == (self.0 & Self::ESI_FLAG != 0),
    {
        (self.0 & Self::ESI_FLAG) != 0
    }
}

/// A host frame.
#[derive(Debug, Clone, Copy)]
pub struct Frame {
    /// Echo id; the device hands it back for frames it sent.
    pub echo_id: u32,
    /// Identifier with the EFF/RTR/ERR flags in its top bits.
    pub can_id: u32,
    /// Data length code.
    pub can_dlc: u8,
    /// Channel the frame was received on, or is sent on.
    pub channel: u8,
    /// Frame flags.
    pub flags: FrameFlags,
    /// Reserved.
    pub reserved: u8,
    /// Payload room: data bytes from the start, then a timestamp.
    pub can_data: [u8; 68],
}

impl Frame {
    /// The frame's 80 bytes as the device lays them out.
    pub open spec fn spec_bytes(self) -> Seq<u8> {
        le32_bytes(self.echo_id) + le32_bytes(self.can_id) + seq![
            self.can_dlc,
            self.channel,
            self.flags.0,
            self.reserved,
        ] + self.can_data@
    }

    /// The extended flag is set.
    pub open spec fn spec_is_extended(self) -> bool {
        self.can_id & EFF_FLAG != 0
    }

    /// The remote flag is set.
    pub open spec fn spec_is_remote(self) -> bool {
        self.can_id & RTR_FLAG != 0
    }

    /// The identifier bits name an identifier of the frame's width: always
    /// for an extended frame, and for a standard frame when the low 16 of
    /// the 29 identifier bits stay within 11 bits.
    pub open spec fn id_readable(self) -> bool {
        self.spec_is_extended() || ((self.can_id & EFF_MASK) as u16) <= STANDARD_ID_MAX
    }

    /// The identifier the frame carries.
    pub open spec fn spec_id(self) -> Id {
        if self.spec_is_extended() {
            Id::Extended(ExtendedId::spec_new(self.can_id & EFF_MASK))
        } else {
            Id::Standard(StandardId::spec_new((self.can_id & EFF_MASK) as u16))
        }
    }

    /// The payload: the first `can_dlc` bytes of the payload room.
    pub open spec fn spec_data(self) -> Seq<u8> {
        self.can_data@.take(self.can_dlc as int)
    }

    /// The data length code fits the frame kind: 8 bytes for a classic
    /// frame, 64 for an FD frame.
    pub open spec fn dlc_fits(self) -> bool {
        self.can_dlc <= (if self.flags.spec_fd() { 64u8 } else { 8u8 })
    }

    /// An all-zero frame.
    fn zeroed() -> (r: Frame)
        ensures
            r.spec_bytes() == zeros(80),
    {
        let r = Frame { echo_id: 0, can_id: 0, can_dlc: 0, channel: 0, flags: FrameFlags(0), reserved: 0, can_data: [0u8; 68] };
        assert(r.spec_bytes() =~= zeros(80));
        r
    }

    /// A classic data frame; it carries `id` and `data` back.
    pub fn new(id: Id, data: &[u8]) -> (r: Option<Frame>)
        requires
            data@.len() <= 8,
        ensures
            r matches Some(f) && {
                &&& f.echo_id == 0 && f.channel == 0 && f.flags.0 == 0 && f.reserved == 0
                &&& f.can_id == id_word(id)
                &&& f.can_dlc == data@.len()
                &&& f.can_data@ == data@ + zeros(68 - data@.len())
                &&& f.id_readable()
                &&& f.spec_id() == id
                &&& f.spec_is_extended() == (id is Extended)
                &&& !f.spec_is_remote()
                &&& f.spec_data() == data@
            },
    {
        let can_id = id_to_word(&id);
        let f = Frame {
            echo_id: 0,
            can_id,
            can_dlc: data.len() as u8,
            channel: 0,
            flags: FrameFlags(0),
            reserved: 0,
            can_data: padded::<68>(data),
        };
        proof {
            lemma_word_flags(id, false);
            assert(f.spec_data() =~= data@);
        }
        Some(f)
    }

    /// A classic remote frame with length code `dlc` (kept to its low 8 bits);
    /// it carries `id` back.
    pub fn new_remote(id: Id, dlc: usize) -> (r: Option<Frame>)
        ensures
            r matches Some(f) && {
                &&& f.echo_id == 0 && f.channel == 0 && f.flags.0 == 0 && f.reserved == 0
                &&& f.can_id == id_word(id) | RTR_FLAG
                &&& f.can_dlc == dlc as u8
                &&& f.can_data@ == zeros(68)
                &&& f.id_readable()
                &&& f.spec_id() == id
                &&& f.spec_is_extended() == (id is Extended)
                &&& f.spec_is_remote()
            },
    {
        let can_id = id_to_word(&id) | RTR_FLAG;
        let f = Frame {
            echo_id: 0,
            can_id,
            can_dlc: dlc as u8,
            channel: 0,
            flags: FrameFlags(0),
            reserved: 0,
            can_data: [0u8; 68],
        };
        proof {
            lemma_word_flags(id, true);
            assert(f.can_data@ =~= zeros(68));
        }
        Some(f)
    }

    /// Channel this frame was received on.
    ///
    /// Only valid for frames received on a device. Constructed frames always
    /// have the channel 0.
    pub fn channel(&self) -> (r: u8)
        ensures
            r == self.channel,
    {
        self.channel
    }

    /// The identifier, standard or extended as the frame's flag says.
    pub fn id(&self) -> (r: Id)
        requires
            self.id_readable(),
        ensures
            r == self.spec_id(),
    {
        let masked = self.can_id & EFF_MASK;
        let c = self.can_id;
        if self.is_extended() {
            assert(c & EFF_MASK <= EXTENDED_ID_MAX) by (bit_vector);
            match ExtendedId::new(masked) {
                Some(e) => Id::Extended(e),
                None => Id::Extended(ExtendedId::max()),
            }
        } else {
            match StandardId::new(masked as u16) {
                Some(s) => Id::Standard(s),
                None => Id::Standard(StandardId::max()),
            }
        }
    }

    /// The frame carries an extended identifier.
    pub fn is_extended(&self) -> (r: bool)
        ensures
            r == self.spec_is_extended(),
    {
        (self.can_id & EFF_FLAG) != 0
    }

    /// The frame is a remote frame.
    pub fn is_remote_frame(&self) -> (r: bool)
        ensures
            r == self.spec_is_remote(),
    {
        (self.can_id & RTR_FLAG) != 0
    }

    /// The data length code.
    pub fn dlc(&self) -> (r: usize)
        ensures
            r == self.can_dlc,
    {
        self.can_dlc as usize
    }

    /// The payload; classic and FD data both start the payload room.
    pub fn data(&self) -> (r: &[u8])
        requires
            self.dlc_fits(),
        ensures
            r@ == self.spec_data(),
    {
        let room: &[u8] = &self.can_data;
        prefix(room, self.dlc())
    }

    /// The frame's 80 bytes.
    pub fn to_bytes(&self) -> (r: Vec<u8>)
        ensures
            r@ == self.spec_bytes(),
    {
        let mut v: Vec<u8> = Vec::new();
        push_le32(&mut v, self.echo_id);
        push_le32(&mut v, self.can_id);
        v.push(self.can_dlc);
        v.push(self.channel);
        v.push(self.flags.0);
        v.push(self.reserved);
        let room: &[u8] = &self.can_data;
        push_all(&mut v, room);
        assert(v@ =~= self.spec_bytes());
        v
    }

    /// The frame received in `buf`: the bytes from the start, the rest zero.
    pub fn from_bytes(buf: &[u8]) -> (r: Frame)
        requires
            buf@.len() <= FRAME_LEN,
        ensures
            r.spec_bytes() == buf@ + zeros(FRAME_LEN - buf@.len()),
    {
        let b = padded::<80>(buf);
        let s: &[u8] = &b;
        let mut room = [0u8; 68];
        let mut i: usize = 0;
        while i < 68
            invariant
                i <= 68,
                s@ == b@,
                b@.len() == 80,
                forall|k: int| 0 <= k < i ==> room@[k] == b@[12 + k],
            decreases 68 - i,
        {
            room[i] = s[12 + i];
            i = i + 1;
        }
        let r = Frame {
            echo_id: read_le32(s, 0),
            can_id: read_le32(s, 4),
            can_dlc: s[8],
            channel: s[9],
            flags: FrameFlags(s[10]),
            reserved: s[11],
            can_data: room,
        };
        proof {
            lemma_le32_bytes_of(b@[0], b@[1], b@[2], b@[3]);
            lemma_le32_bytes_of(b@[4], b@[5], b@[6], b@[7]);
            assert(r.spec_bytes() =~= b@);
        }
        r
    }

    /// The bytes of one transfer sending this frame on `channel`: the whole
    /// frame for an FD frame, else its first 24 bytes.
    pub fn transfer_bytes(&self, channel: u8) -> (r: Vec<u8>)
        ensures
            r@ == (Frame { channel, ..*self }).spec_bytes().take(
                if self.flags.spec_fd() { FRAME_LEN as int } else { CLASSIC_FRAME_LEN as int },
            ),
    {
        let mut f = *self;
        f.channel = channel;
        let all = f.to_bytes();
        if f.flags.fd() {
            assert(all@.take(80) =~= all@);
            all
        } else {
            let mut v: Vec<u8> = Vec::new();
            push_all(&mut v, prefix(all.as_slice(), CLASSIC_FRAME_LEN));
            v
        }
    }
}

/// Two frames with the same bytes are the same frame, so a frame read back
/// from its own bytes is that frame.
pub proof fn lemma_bytes_determine_frame(a: Frame, b: Frame)
    requires
        a.spec_bytes() == b.spec_bytes(),
    ensures
        a == b,
{
    let x = a.spec_bytes();
    let y = b.spec_bytes();
    lemma_le32_roundtrip(a.echo_id);
    lemma_le32_roundtrip(b.echo_id);
    lemma_le32_roundtrip(a.can_id);
    lemma_le32_roundtrip(b.can_id);
    assert(x[0] == y[0] && x[1] == y[1] && x[2] == y[2] && x[3] == y[3]);
    assert(x[4] == y[4] && x[5] == y[5] && x[6] == y[6] && x[7] == y[7]);
    assert(le32_bytes(a.echo_id) == x.subrange(0, 4));
    assert(le32_bytes(b.echo_id) == y.subrange(0, 4));
    assert(a.echo_id == b.echo_id);
    assert(a.can_id == b.can_id) by {
        assert(le32_bytes(a.can_id) =~= x.subrange(4, 8));
        assert(le32_bytes(b.can_id) =~= y.subrange(4, 8));
    }
    assert(x[8] == y[8] && x[9] == y[9] && x[10] == y[10] && x[11] == y[11]);
    assert(a.can_data@ =~= b.can_data@) by {
        assert forall|k: int| 0 <= k < 68 implies a.can_data@[k] == b.can_data@[k] by {
            assert(x[12 + k] == y[12 + k]);
        }
    }
    assert(a.can_data == b.can_data);
}

} // verus!
