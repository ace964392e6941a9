//! Standard (11-bit) and extended (29-bit) CAN identifiers.

use vstd::prelude::*;

verus! {

/// Largest standard identifier.
pub const STANDARD_ID_MAX: u16 = 0x7FF;

/// Largest extended identifier.
pub const EXTENDED_ID_MAX: u32 = 0x1FFF_FFFF;

/// Identifier-word flag: extended (29-bit) identifier.
pub const EFF_FLAG: u32 = 0x8000_0000;
/// Identifier-word flag: remote transmission request.
pub const RTR_FLAG: u32 = 0x4000_0000;
/// Identifier-word flag: error frame.
pub const ERR_FLAG: u32 = 0x2000_0000;
/// Identifier-word bits of a standard identifier.
pub const SFF_MASK: u32 = 0x7FF;
/// Identifier-word bits of an extended identifier.
pub const EFF_MASK: u32 = 0x1FFF_FFFF;

/// An 11-bit CAN identifier.
#[derive(Debug, Clone, Copy, PartialEq, Eq, Structural, Hash)]
pub struct StandardId(u16);

impl StandardId {
    #[verifier::type_invariant]
    spec fn inv(self) -> bool {
        self.0 <= STANDARD_ID_MAX
    }

    /// The raw identifier value.
    pub closed spec fn raw(self) -> u16 {
        self.0
    }

    /// The identifier whose raw value is `raw`.
    pub closed spec fn spec_new(raw: u16) -> StandardId {
        StandardId(raw)
    }

    /// The identifier built from `raw` gives `raw` back.
    pub proof fn lemma_spec_new(raw: u16)
        ensures
            Self::spec_new(raw).raw() == raw,
    {
    }

    /// Create an identifier; `None` when `raw` does not fit in 11 bits.
    pub fn new(raw: u16) -> (r: Option<StandardId>)
        ensures
            raw <= STANDARD_ID_MAX <==> r is Some,
            r matches Some(id) ==> id.raw() == raw && id == Self::spec_new(raw),
    {
        if raw <= STANDARD_ID_MAX {
            Some(StandardId(raw))
        } else {
            None
        }
    }

    /// The identifier `0x7FF`.
    pub fn max() -> (r: StandardId)
        ensures
            r.raw() == STANDARD_ID_MAX,
            r == Self::spec_new(STANDARD_ID_MAX),
    {
        StandardId(STANDARD_ID_MAX)
    }

    /// The raw identifier value.
    pub fn as_raw(&self) -> (r: u16)
        ensures
            r == self.raw(),
            r <= STANDARD_ID_MAX,
            *self == Self::spec_new(r),
    {
        proof {
            use_type_invariant(self);
        }
        self.0
    }
}

/// A 29-bit CAN identifier.
#[derive(Debug, Clone, Copy, PartialEq, Eq, Structural, Hash)]
pub struct ExtendedId(u32);

impl ExtendedId {
    #[verifier::type_invariant]
    spec fn inv(self) -> bool {
        self.0 <= EXTENDED_ID_MAX
    }

    /// The raw identifier value.
    pub closed spec fn raw(self) -> u32 {
        self.0
    }

    /// The identifier whose raw value is `raw`.
    pub closed spec fn spec_new(raw: u32) -> ExtendedId {
        ExtendedId(raw)
    }

    /// The identifier built from `raw` gives `raw` back.
    pub proof fn lemma_spec_new(raw: u32)
        ensures
            Self::spec_new(raw).raw() == raw,
    {
    }

    /// Create an identifier; `None` when `raw` does not fit in 29 bits.
    pub fn new(raw: u32) -> (r: Option<ExtendedId>)
        ensures
            raw <= EXTENDED_ID_MAX <==> r is Some,
            r matches Some(id) ==> id.raw() == raw && id == Self::spec_new(raw),
    {
        if raw <= EXTENDED_ID_MAX {
            Some(ExtendedId(raw))
        } else {
            None
        }
    }

    /// The identifier `0x1FFFFFFF`.
    pub fn max() -> (r: ExtendedId)
        ensures
            r.raw() == EXTENDED_ID_MAX,
            r == Self::spec_new(EXTENDED_ID_MAX),
    {
        ExtendedId(EXTENDED_ID_MAX)
    }

    /// The raw identifier value.
    pub fn as_raw(&self) -> (r: u32)
        ensures
            r == self.raw(),
            r <= EXTENDED_ID_MAX,
            *self == Self::spec_new(r),
    {
        proof {
            use_type_invariant(self);
        }
        self.0
    }
}

/// A standard or extended CAN identifier.
#[derive(Debug, Clone, Copy, PartialEq, Eq, Structural, Hash)]
pub enum Id {
    Standard(StandardId),
    Extended(ExtendedId),
}

impl Id {
    /// The raw identifier value, whichever its width.
    pub open spec fn raw(self) -> u32 {
        match self {
            Id::Standard(s) => s.raw() as u32,
            Id::Extended(e) => e.raw(),
        }
    }

    /// Whether this is an extended identifier.
    pub fn is_extended(&self) -> (r: bool)
        ensures
            r == (self is Extended),
    {
        match self {
            Id::Standard(_) => false,
            Id::Extended(_) => true,
        }
    }

    /// The raw identifier value, whichever its width.
    pub fn as_raw(&self) -> (r: u32)
        ensures
            r == self.raw(),
            r <= EXTENDED_ID_MAX,
    {
        match self {
            Id::Standard(s) => s.as_raw() as u32,
            Id::Extended(e) => e.as_raw(),
        }
    }
}

/// The identifier word for `id`: the raw identifier, with the extended flag
/// for an extended identifier.
pub open spec fn id_word(id: Id) -> u32 {
    match id {
        Id::Extended(e) => e.raw() | EFF_FLAG,
        Id::Standard(s) => s.raw() as u32,
    }
}

/// The identifier lies within its width, and is the identifier its raw
/// value makes.
pub open spec fn id_fits(id: Id) -> bool {
    match id {
        Id::Extended(e) => e.raw() <= EXTENDED_ID_MAX && e == ExtendedId::spec_new(e.raw()),
        Id::Standard(s) => s.raw() <= STANDARD_ID_MAX && s == StandardId::spec_new(s.raw()),
    }
}

/// The identifier word for `id`.
pub fn id_to_word(id: &Id) -> (r: u32)
    ensures
        r == id_word(*id),
        id_fits(*id),
{
    match id {
        Id::Extended(e) => e.as_raw() | EFF_FLAG,
        Id::Standard(s) => s.as_raw() as u32,
    }
}

/// The flags and identifier bits of an identifier word read back as the
/// identifier, and the error flag stays clear.
pub proof fn lemma_word_flags(id: Id, rtr: bool)
    requires
        id_fits(id),
    ensures
        ({
            let w = if rtr { id_word(id) | RTR_FLAG } else { id_word(id) };
            &&& (w & EFF_FLAG != 0) == (id is Extended)
            &&& (w & RTR_FLAG != 0) == rtr
            &&& w & ERR_FLAG == 0
            &&& id is Extended ==> w & EFF_MASK == id.raw()
            &&& id is Standard ==> (w & SFF_MASK) as u16 == id.raw()
            &&& id is Standard ==> w & EFF_MASK == id.raw()
        }),
{
    match id {
        Id::Extended(e) => {
            let x = e.raw();
            assert(x <= 0x1FFF_FFFF ==> {
                &&& (x | 0x8000_0000u32) & 0x8000_0000u32 != 0
                &&& (x | 0x8000_0000u32) & 0x4000_0000u32 == 0
                &&& (x | 0x8000_0000u32) & 0x1FFF_FFFFu32 == x
                &&& ((x | 0x8000_0000u32) | 0x4000_0000u32) & 0x8000_0000u32 != 0
                &&& ((x | 0x8000_0000u32) | 0x4000_0000u32) & 0x4000_0000u32 != 0
                &&& ((x | 0x8000_0000u32) | 0x4000_0000u32) & 0x1FFF_FFFFu32 == x
                &&& (x | 0x8000_0000u32) & 0x2000_0000u32 == 0
                &&& ((x | 0x8000_0000u32) | 0x4000_0000u32) & 0x2000_0000u32 == 0
            }) by (bit_vector);
        },
        Id::Standard(s) => {
            let x = s.raw() as u32;
            assert(x <= 0x7FF ==> {
                &&& x & 0x8000_0000u32 == 0
                &&& x & 0x4000_0000u32 == 0
                &&& x & 0x7FFu32 == x
                &&& (x | 0x4000_0000u32) & 0x8000_0000u32 == 0
                &&& (x | 0x4000_0000u32) & 0x4000_0000u32 != 0
                &&& (x | 0x4000_0000u32) & 0x7FFu32 == x
                &&& x & 0x1FFF_FFFFu32 == x
                &&& (x | 0x4000_0000u32) & 0x1FFF_FFFFu32 == x
                &&& x & 0x2000_0000u32 == 0
                &&& (x | 0x4000_0000u32) & 0x2000_0000u32 == 0
            }) by (bit_vector);
        },
    }
}

} // verus!
