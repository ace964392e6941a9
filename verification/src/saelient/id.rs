//! Parameter group numbers.

use vstd::prelude::*;
use vstd::std_specs::convert::FromSpecImpl;

verus! {

/// A parameter group number: well-known groups by name, others by value.
///
/// Two PGNs are equal when their numbers are.
#[derive(Debug, Clone, Copy)]
pub enum Pgn {
    /// Acknowledgement (0xE800).
    Acknowledgement,
    /// Request (0xEA00).
    Request,
    /// Transport protocol data transfer (0xEB00).
    TransportProtocolDataTransfer,
    /// Transport protocol connection management (0xEC00).
    TransportProtocolConnectionManagement,
    /// Address claimed (0xEE00).
    AddressClaimed,
    /// Proprietary A (0xEF00).
    ProprietaryA,
    /// DM14, memory access request (0xD900).
    MemoryAccessRequest,
    /// DM15, memory access response (0xD800).
    MemoryAccessResponse,
    /// DM17, boot load data (0xD600).
    BootLoadData,
    /// Any other group, by number.
    Other(u32),
}

/// The number of a PGN.
pub open spec fn pgn_value(p: Pgn) -> u32 {
    match p {
        Pgn::Acknowledgement => 0xE800,
        Pgn::Request => 0xEA00,
        Pgn::TransportProtocolDataTransfer => 0xEB00,
        Pgn::TransportProtocolConnectionManagement => 0xEC00,
        Pgn::AddressClaimed => 0xEE00,
        Pgn::ProprietaryA => 0xEF00,
        Pgn::MemoryAccessRequest => 0xD900,
        Pgn::MemoryAccessResponse => 0xD800,
        Pgn::BootLoadData => 0xD600,
        Pgn::Other(v) => v,
    }
}

/// The PGN of a number: the named group when there is one.
pub open spec fn pgn_from_value(v: u32) -> Pgn {
    if v == 0xE800 {
        Pgn::Acknowledgement
    } else if v == 0xEA00 {
        Pgn::Request
    } else if v == 0xEB00 {
        Pgn::TransportProtocolDataTransfer
    } else if v == 0xEC00 {
        Pgn::TransportProtocolConnectionManagement
    } else if v == 0xEE00 {
        Pgn::AddressClaimed
    } else if v == 0xEF00 {
        Pgn::ProprietaryA
    } else if v == 0xD900 {
        Pgn::MemoryAccessRequest
    } else if v == 0xD800 {
        Pgn::MemoryAccessResponse
    } else if v == 0xD600 {
        Pgn::BootLoadData
    } else {
        Pgn::Other(v)
    }
}

impl From<Pgn> for u32 {
    fn from(p: Pgn) -> (r: u32) {
        match p {
            Pgn::Acknowledgement => 0xE800,
            Pgn::Request => 0xEA00,
            Pgn::TransportProtocolDataTransfer => 0xEB00,
            Pgn::TransportProtocolConnectionManagement => 0xEC00,
            Pgn::AddressClaimed => 0xEE00,
            Pgn::ProprietaryA => 0xEF00,
            Pgn::MemoryAccessRequest => 0xD900,
            Pgn::MemoryAccessResponse => 0xD800,
            Pgn::BootLoadData => 0xD600,
            Pgn::Other(v) => v,
        }
    }
}

impl FromSpecImpl<Pgn> for u32 {
    open spec fn obeys_from_spec() -> bool {
        true
    }

    open spec fn from_spec(p: Pgn) -> u32 {
        pgn_value(p)
    }
}

impl From<u32> for Pgn {
    fn from(v: u32) -> (r: Pgn) {
        if v == 0xE800 {
            Pgn::Acknowledgement
        } else if v == 0xEA00 {
            Pgn::Request
        } else if v == 0xEB00 {
            Pgn::TransportProtocolDataTransfer
        } else if v == 0xEC00 {
            Pgn::TransportProtocolConnectionManagement
        } else if v == 0xEE00 {
            Pgn::AddressClaimed
        } else if v == 0xEF00 {
            Pgn::ProprietaryA
        } else if v == 0xD900 {
            Pgn::MemoryAccessRequest
        } else if v == 0xD800 {
            Pgn::MemoryAccessResponse
        } else if v == 0xD600 {
            Pgn::BootLoadData
        } else {
            Pgn::Other(v)
        }
    }
}

impl FromSpecImpl<u32> for Pgn {
    open spec fn obeys_from_spec() -> bool {
        true
    }

    open spec fn from_spec(v: u32) -> Pgn {
        pgn_from_value(v)
    }
}

impl PartialEq for Pgn {
    fn eq(&self, other: &Pgn) -> (r: bool) {
        u32::from(*self) == u32::from(*other)
    }
}

impl vstd::std_specs::cmp::PartialEqSpecImpl for Pgn {
    open spec fn obeys_eq_spec() -> bool {
        true
    }

    open spec fn eq_spec(&self, other: &Pgn) -> bool {
        pgn_value(*self) == pgn_value(*other)
    }
}

impl Eq for Pgn {
}

/// A number survives conversion to a PGN and back.
pub proof fn lemma_pgn_value_roundtrip(v: u32)
    ensures
        pgn_value(pgn_from_value(v)) == v,
{
}

/// A PGN converted to its number and back is equal to it.
pub proof fn lemma_pgn_roundtrip(p: Pgn)
    ensures
        pgn_value(pgn_from_value(pgn_value(p))) == pgn_value(p),
{
}

} // verus!
