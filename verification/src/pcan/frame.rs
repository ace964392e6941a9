//! Classical CAN and CAN-FD frames of the PCAN-USB FD adapter.

use crate::bytes::{padded, prefix, zeros};
use crate::can_id::Id;
use vstd::prelude::*;

verus! {

/// A classical CAN 2.0 frame (max 8 data bytes).
#[derive(Debug, Clone, PartialEq, Eq)]
pub struct Frame {
    /// CAN identifier (standard 11-bit or extended 29-bit).
    pub id: Id,
    /// Data bytes (meaningful up to `dlc`).
    pub data: [u8; 8],
    /// Data length code (0-8).
    pub dlc: u8,
    /// Remote transmission request flag.
    pub rtr: bool,
}

impl Frame {
    /// A data frame carrying `data`; `None` when `data` is longer than 8 bytes.
    pub fn new(id: Id, data: &[u8]) -> (r: Option<Frame>)
        ensures
            r is Some <==> data@.len() <= 8,
            r matches Some(f) ==> {
                &&& f.id == id
                &&& f.data@ == data@ + zeros(8 - data@.len())
                &&& f.dlc == data@.len()
                &&& !f.rtr
            },
    {
        if data.len() > 8 {
            return None;
        }
        Some(Frame { id, data: padded::<8>(data), dlc: data.len() as u8, rtr: false })
    }

    /// A remote frame asking for `dlc` bytes; `None` when `dlc` is over 8.
    pub fn new_remote(id: Id, dlc: usize) -> (r: Option<Frame>)
        ensures
            r is Some <==> dlc <= 8,
            r matches Some(f) ==> {
                &&& f.id == id
                &&& f.data@ == zeros(8)
                &&& f.dlc == dlc
                &&& f.rtr
            },
    {
        if dlc > 8 {
            return None;
        }
        let data = padded::<8>(&[]);
        proof {
            assert(data@ =~= zeros(8));
        }
        Some(Frame { id, data, dlc: dlc as u8, rtr: true })
    }

    /// Whether the identifier is extended.
    pub fn is_extended(&self) -> (r: bool)
        ensures
            r == (self.id is Extended),
    {
        self.id.is_extended()
    }

    /// Whether this is a remote frame.
    pub fn is_remote_frame(&self) -> (r: bool)
        ensures
            r == self.rtr,
    {
        self.rtr
    }

    /// The identifier.
    pub fn id(&self) -> (r: Id)
        ensures
            r == self.id,
    {
        self.id
    }

    /// The data length code.
    pub fn dlc(&self) -> (r: usize)
        ensures
            r == self.dlc,
    {
        self.dlc as usize
    }

    /// The data bytes: none for a remote frame, else the first `dlc`.
    pub fn data(&self) -> (r: &[u8])
        requires
            !self.rtr ==> self.dlc <= 8,
        ensures
            self.rtr ==> r@ == Seq::<u8>::empty(),
            !self.rtr ==> r@ == self.data@.subrange(0, self.dlc as int),
    {
        if self.rtr {
            prefix(self.data.as_slice(), 0)
        } else {
            prefix(self.data.as_slice(), self.dlc as usize)
        }
    }
}

/// A CAN-FD frame (max 64 data bytes).
#[derive(Debug, Clone, PartialEq, Eq)]
pub struct FdFrame {
    /// CAN identifier (standard 11-bit or extended 29-bit).
    pub id: Id,
    /// Data bytes (meaningful up to `len`).
    pub data: [u8; 64],
    /// Actual data length in bytes (0-64, must be a valid FD DLC length).
    pub len: u8,
    /// Bit-rate switch: data phase transmitted at the data bitrate.
    pub brs: bool,
    /// Error state indicator: set by a transmitter in error-passive state.
    pub esi: bool,
}

impl FdFrame {
    /// A CAN-FD frame carrying `data`; `None` when `data` is longer than 64 bytes.
    pub fn new(id: Id, data: &[u8]) -> (r: Option<FdFrame>)
        ensures
            r is Some <==> data@.len() <= 64,
            r matches Some(f) ==> {
                &&& f.id == id
                &&& f.data@ == data@ + zeros(64 - data@.len())
                &&& f.len == data@.len()
                &&& !f.brs
                &&& !f.esi
            },
    {
        if data.len() > 64 {
            return None;
        }
        Some(FdFrame { id, data: padded::<64>(data), len: data.len() as u8, brs: false, esi: false })
    }

    /// As [`FdFrame::new`], with bit-rate switching on.
    pub fn new_brs(id: Id, data: &[u8]) -> (r: Option<FdFrame>)
        ensures
            r is Some <==> data@.len() <= 64,
            r matches Some(f) ==> {
                &&& f.id == id
                &&& f.data@ == data@ + zeros(64 - data@.len())
                &&& f.len == data@.len()
                &&& f.brs
                &&& !f.esi
            },
    {
        let mut f = Self::new(id, data)?;
        f.brs = true;
        Some(f)
    }
}

/// Bytes carried by a CAN-FD frame with data length code `dlc`.
pub open spec fn spec_fd_dlc_to_len(dlc: u8) -> int {
    if dlc <= 8 {
        dlc as int
    } else if dlc == 9 {
        12
    } else if dlc == 10 {
        16
    } else if dlc == 11 {
        20
    } else if dlc == 12 {
        24
    } else if dlc == 13 {
        32
    } else if dlc == 14 {
        48
    } else {
        64
    }
}

/// The smallest data length code whose frame holds `len` bytes (15 beyond 48).
pub open spec fn spec_fd_len_to_dlc(len: int) -> u8 {
    if len <= 8 {
        len as u8
    } else if len <= 12 {
        9
    } else if len <= 16 {
        10
    } else if len <= 20 {
        11
    } else if len <= 24 {
        12
    } else if len <= 32 {
        13
    } else if len <= 48 {
        14
    } else {
        15
    }
}

/// A byte count that some CAN-FD data length code carries exactly.
pub open spec fn is_fd_len(len: int) -> bool {
    ||| 0 <= len <= 8
    ||| len == 12
    ||| len == 16
    ||| len == 20
    ||| len == 24
    ||| len == 32
    ||| len == 48
    ||| len == 64
}

/// Convert a CAN-FD DLC value (0-15) to a data byte count.
pub fn fd_dlc_to_len(dlc: u8) -> (r: usize)
    ensures
        r == spec_fd_dlc_to_len(dlc),
{
    if dlc <= 8 {
        dlc as usize
    } else if dlc == 9 {
        12
    } else if dlc == 10 {
        16
    } else if dlc == 11 {
        20
    } else if dlc == 12 {
        24
    } else if dlc == 13 {
        32
    } else if dlc == 14 {
        48
    } else {
        64
    }
}

/// Convert a data byte count to the smallest valid CAN-FD DLC.
pub fn fd_len_to_dlc(len: usize) -> (r: u8)
    ensures
        r == spec_fd_len_to_dlc(len as int),
{
    if len <= 8 {
        len as u8
    } else if len <= 12 {
        9
    } else if len <= 16 {
        10
    } else if len <= 20 {
        11
    } else if len <= 24 {
        12
    } else if len <= 32 {
        13
    } else if len <= 48 {
        14
    } else {
        15
    }
}

/// A valid CAN-FD length survives conversion to a DLC and back.
pub proof fn lemma_fd_len_roundtrip(len: int)
    requires
        is_fd_len(len),
    ensures
        spec_fd_dlc_to_len(spec_fd_len_to_dlc(len)) == len,
{
}

/// Every DLC up to 15 survives conversion to a length and back.
pub proof fn lemma_fd_dlc_roundtrip(dlc: u8)
    requires
        dlc <= 15,
    ensures
        spec_fd_len_to_dlc(spec_fd_dlc_to_len(dlc)) == dlc,
        is_fd_len(spec_fd_dlc_to_len(dlc)),
{
}

/// For up to 64 bytes, the chosen DLC holds the data, and no smaller DLC does.
pub proof fn lemma_fd_len_to_dlc_smallest(len: int)
    requires
        0 <= len <= 64,
    ensures
        spec_fd_dlc_to_len(spec_fd_len_to_dlc(len)) >= len,
        forall|d: u8| d < spec_fd_len_to_dlc(len) ==> spec_fd_dlc_to_len(d) < len,
{
}

} // verus!
