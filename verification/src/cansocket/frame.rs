//! Classic CAN frames as SocketCAN lays them out.

use crate::bytes::{padded, prefix, zeros};
use crate::can_id::{
    id_to_word, id_word, lemma_word_flags, ExtendedId, Id, StandardId, EFF_FLAG, EFF_MASK,
    ERR_FLAG, EXTENDED_ID_MAX, RTR_FLAG, SFF_MASK, STANDARD_ID_MAX,
};
use vstd::prelude::*;

verus! {

/// Identifier flag: extended (29-bit) frame.
pub const CAN_EFF_FLAG: u32 = EFF_FLAG;
/// Identifier flag: remote transmission request.
pub const CAN_RTR_FLAG: u32 = RTR_FLAG;
/// Identifier flag: error frame.
pub const CAN_ERR_FLAG: u32 = ERR_FLAG;
/// Bits of a standard identifier.
pub const CAN_SFF_MASK: u32 = SFF_MASK;
/// Bits of an extended identifier.
pub const CAN_EFF_MASK: u32 = EFF_MASK;

/// Why a frame could not be built.
#[derive(Debug, Clone, Copy, PartialEq, Eq, Structural)]
pub enum FrameCreateError {
    InvalidLength,
    InvalidDataLength,
}

/// A classic CAN frame in the kernel's `struct can_frame` layout.
#[derive(Debug, Clone, Copy)]
pub struct Frame {
    /// Identifier with the EFF/RTR/ERR flags in its top bits.
    pub can_id: u32,
    /// Payload length in bytes.
    pub can_dlc: u8,
    /// Raw DLC for 8-byte payloads (9 to 15), else 0.
    pub len8_dlc: u8,
    /// Payload, zero-padded to 8 bytes.
    pub data: [u8; 8],
}

impl Frame {
    /// The extended flag is set.
    pub open spec fn spec_is_extended(self) -> bool {
        self.can_id & CAN_EFF_FLAG != 0
    }

    /// The remote flag is set.
    pub open spec fn spec_is_remote(self) -> bool {
        self.can_id & CAN_RTR_FLAG != 0
    }

    /// The identifier the frame carries.
    pub open spec fn spec_id(self) -> Id {
        if self.spec_is_extended() {
            Id::Extended(ExtendedId::spec_new(self.can_id & CAN_EFF_MASK))
        } else {
            Id::Standard(StandardId::spec_new((self.can_id & CAN_SFF_MASK) as u16))
        }
    }

    /// The payload: the first `can_dlc` data bytes.
    pub open spec fn spec_data(self) -> Seq<u8> {
        self.data@.take(self.can_dlc as int)
    }

    /// Create a new data frame; `InvalidLength` when `data` holds more than 8 bytes.
    ///
    /// The frame carries `id` and `data` back: its identifier is `id`, it is
    /// extended exactly when `id` is, it is no remote frame and no error
    /// frame, and its payload is `data`.
    pub fn new(id: Id, data: &[u8]) -> (r: Result<Frame, FrameCreateError>)
        ensures
            data@.len() > 8 <==> r is Err,
            r matches Err(e) ==> e == FrameCreateError::InvalidLength,
            r matches Ok(f) ==> {
                &&& f.can_id == id_word(id)
                &&& f.can_dlc == data@.len()
                &&& f.len8_dlc == 0
                &&& f.data@ == data@ + zeros(8 - data@.len())
                &&& f.spec_id() == id
                &&& f.spec_is_extended() == (id is Extended)
                &&& !f.spec_is_remote()
                &&& f.can_id & CAN_ERR_FLAG == 0
                &&& f.spec_data() == data@
            },
    {
        if data.len() > 8 {
            return Err(FrameCreateError::InvalidLength);
        }
        let can_id = id_to_word(&id);
        let bytes = match data_from_slice(data) {
            Ok(b) => b,
            Err(e) => return Err(e),
        };
        let f = Frame { can_id, can_dlc: data.len() as u8, len8_dlc: 0, data: bytes };
        proof {
            lemma_word_flags(id, false);
            assert(f.spec_data() =~= data@);
        }
        Ok(f)
    }

    /// Create a new remote frame; `InvalidLength` when `len` exceeds 8.
    ///
    /// The frame carries `id` back, is extended exactly when `id` is, and is
    /// a remote frame and no error frame.
    pub fn new_remote(id: Id, len: u8) -> (r: Result<Frame, FrameCreateError>)
        ensures
            len > 8 <==> r is Err,
            r matches Err(e) ==> e == FrameCreateError::InvalidLength,
            r matches Ok(f) ==> {
                &&& f.can_id == id_word(id) | CAN_RTR_FLAG
                &&& f.can_dlc == len
                &&& f.len8_dlc == 0
                &&& f.data@ == zeros(8)
                &&& f.spec_id() == id
                &&& f.spec_is_extended() == (id is Extended)
                &&& f.spec_is_remote()
                &&& f.can_id & CAN_ERR_FLAG == 0
            },
    {
        if len > 8 {
            return Err(FrameCreateError::InvalidLength);
        }
        let can_id = id_to_word(&id) | CAN_RTR_FLAG;
        let f = Frame { can_id, can_dlc: len, len8_dlc: 0, data: [0u8; 8] };
        proof {
            lemma_word_flags(id, true);
            assert(f.data@ =~= zeros(8));
        }
        Ok(f)
    }

    /// The identifier, standard or extended as the frame's flag says.
    pub fn id(&self) -> (r: Id)
        ensures
            r == self.spec_id(),
    {
        if self.is_extended() {
            let raw = self.can_id & CAN_EFF_MASK;
            let c = self.can_id;
            assert(c & CAN_EFF_MASK <= EXTENDED_ID_MAX) by (bit_vector);
            match ExtendedId::new(raw) {
                Some(e) => Id::Extended(e),
                None => Id::Extended(ExtendedId::max()),
            }
        } else {
            let c = self.can_id;
            assert(c & CAN_SFF_MASK <= STANDARD_ID_MAX) by (bit_vector);
            let raw = (self.can_id & CAN_SFF_MASK) as u16;
            match StandardId::new(raw) {
                Some(s) => Id::Standard(s),
                None => Id::Standard(StandardId::max()),
            }
        }
    }

    /// The frame carries an extended identifier.
    pub fn is_extended(&self) -> (r: bool)
        ensures
            r == self.spec_is_extended(),
    {
        (self.can_id & CAN_EFF_FLAG) != 0
    }

    /// The frame is a remote frame.
    pub fn is_remote_frame(&self) -> (r: bool)
        ensures
            r == self.spec_is_remote(),
    {
        (self.can_id & CAN_RTR_FLAG) != 0
    }

    /// The data length code.
    pub fn dlc(&self) -> (r: usize)
        ensures
            r == self.can_dlc,
    {
        self.can_dlc as usize
    }

    /// The payload; a length code above 8 has no payload to show.
    pub fn data(&self) -> (r: &[u8])
        requires
            self.can_dlc <= 8,
        ensures
            r@ == self.spec_data(),
    {
        let d: &[u8] = &self.data;
        prefix(d, self.can_dlc as usize)
    }
}

/// The payload bytes padded to 8; `InvalidDataLength` when there are more than 8.
fn data_from_slice(data: &[u8]) -> (r: Result<[u8; 8], FrameCreateError>)
    ensures
        data@.len() > 8 <==> r is Err,
        r matches Err(e) ==> e == FrameCreateError::InvalidDataLength,
        r matches Ok(b) ==> b@ == data@ + zeros(8 - data@.len()),
{
    if data.len() > 8 {
        return Err(FrameCreateError::InvalidDataLength);
    }
    Ok(padded::<8>(data))
}

} // verus!
