//! Signals (J1939-71)

use vstd::prelude::*;
use vstd::std_specs::convert::FromSpecImpl;

verus! {

/// Signal type: a raw value of a base integer type, split into four
/// disjoint ranges (valid values, parameter-specific indicators, error
/// codes, not available); a raw value outside all four is no signal.
pub trait Signal: Sized {
    /// Underlying base type.
    type Base;

    /// The raw value.
    spec fn spec_raw(&self) -> Self::Base;

    /// `v` lies in the range of valid values.
    spec fn in_valid(v: Self::Base) -> bool;

    /// `v` lies in the indicator range.
    spec fn in_indicator(v: Self::Base) -> bool;

    /// `v` lies in the error range.
    spec fn in_error(v: Self::Base) -> bool;

    /// `v` lies in the not-present range.
    spec fn in_not_present(v: Self::Base) -> bool;

    /// A raw value lies in at most one of the four ranges.
    proof fn lemma_ranges_disjoint(v: Self::Base)
        ensures
            Self::in_valid(v) ==> !Self::in_indicator(v) && !Self::in_error(v) && !Self::in_not_present(v),
            Self::in_indicator(v) ==> !Self::in_error(v) && !Self::in_not_present(v),
            Self::in_error(v) ==> !Self::in_not_present(v),
    ;

    /// Create from raw value.
    ///
    /// Returns `None` if the value provided lies in none of the signal's ranges.
    fn from_raw(value: Self::Base) -> (r: Option<Self>)
        ensures
            r is Some <==> (Self::in_valid(value) || Self::in_indicator(value) || Self::in_error(value)
                || Self::in_not_present(value)),
            r matches Some(s) ==> s.spec_raw() == value,
    ;

    /// Get the raw value.
    fn to_raw(&self) -> (r: Self::Base)
        ensures
            r == self.spec_raw(),
    ;

    /// Inner value if valid.
    fn value(&self) -> (r: Option<Self::Base>)
        ensures
            r == (if Self::in_valid(self.spec_raw()) { Some(self.spec_raw()) } else { None }),
    ;

    /// Signal is valid.
    fn is_valid(&self) -> (r: bool)
        ensures
            r == Self::in_valid(self.spec_raw()),
    ;

    /// Get the indicator value if it is present.
    fn indicator(&self) -> (r: Option<Self::Base>)
        ensures
            r == (if Self::in_indicator(self.spec_raw()) { Some(self.spec_raw()) } else { None }),
    ;

    /// Signal is a parameter specific indicator.
    fn is_indicator(&self) -> (r: bool)
        ensures
            r == Self::in_indicator(self.spec_raw()),
    ;

    /// Get the error value if it is present.
    fn error(&self) -> (r: Option<Self::Base>)
        ensures
            r == (if Self::in_error(self.spec_raw()) { Some(self.spec_raw()) } else { None }),
    ;

    /// Signal indicates an error.
    fn is_error(&self) -> (r: bool)
        ensures
            r == Self::in_error(self.spec_raw()),
    ;

    /// Get the not-present value if it is present.
    fn not_present(&self) -> (r: Option<Self::Base>)
        ensures
            r == (if Self::in_not_present(self.spec_raw()) { Some(self.spec_raw()) } else { None }),
    ;

    /// Signal is not available or was not requested.
    fn is_not_present(&self) -> (r: bool)
        ensures
            r == Self::in_not_present(self.spec_raw()),
    ;
}

/// Parameter signal of 4 bits: valid 0x00..=0x0A, indicator 0x0B..=0x0B,
/// error 0x0E..=0x0E, not present 0x0F..=0x0F.
#[derive(Debug, Clone, Copy, PartialEq, Eq, Structural)]
pub struct Param4(pub u8);

impl Signal for Param4 {
    type Base = u8;

    open spec fn spec_raw(&self) -> u8 {
        self.0
    }

    open spec fn in_valid(v: u8) -> bool {
        v <= 0x0A
    }

    open spec fn in_indicator(v: u8) -> bool {
        v == 0x0B
    }

    open spec fn in_error(v: u8) -> bool {
        v == 0x0E
    }

    open spec fn in_not_present(v: u8) -> bool {
        v == 0x0F
    }

    proof fn lemma_ranges_disjoint(v: u8) {
    }

    fn from_raw(value: u8) -> (r: Option<Self>) {
        if (value <= 0x0A) || (value == 0x0B) || (value == 0x0E) || (value == 0x0F) {
            Some(Self(value))
        } else {
            None
        }
    }

    fn to_raw(&self) -> (r: u8) {
        self.0
    }

    fn value(&self) -> (r: Option<u8>) {
        if self.is_valid() {
            Some(self.0)
        } else {
            None
        }
    }

    fn is_valid(&self) -> (r: bool) {
        self.0 <= 0x0A
    }

    fn indicator(&self) -> (r: Option<u8>) {
        if self.is_indicator() {
            Some(self.0)
        } else {
            None
        }
    }

    fn is_indicator(&self) -> (r: bool) {
        self.0 == 0x0B
    }

    fn error(&self) -> (r: Option<u8>) {
        if self.is_error() {
            Some(self.0)
        } else {
            None
        }
    }

    fn is_error(&self) -> (r: bool) {
        self.0 == 0x0E
    }

    fn not_present(&self) -> (r: Option<u8>) {
        if self.is_not_present() {
            Some(self.0)
        } else {
            None
        }
    }

    fn is_not_present(&self) -> (r: bool) {
        self.0 == 0x0F
    }
}

impl From<Param4> for u8 {
    fn from(value: Param4) -> (r: u8)
        ensures
            r == value.0,
    {
        value.0
    }
}

impl FromSpecImpl<Param4> for u8 {
    open spec fn obeys_from_spec() -> bool {
        true
    }

    open spec fn from_spec(value: Param4) -> u8 {
        value.0
    }
}

impl From<u8> for Param4 {
    fn from(value: u8) -> (r: Param4)
        ensures
            r.0 == value,
    {
        Self(value)
    }
}

impl FromSpecImpl<u8> for Param4 {
    open spec fn obeys_from_spec() -> bool {
        true
    }

    open spec fn from_spec(value: u8) -> Param4 {
        Self(value)
    }
}

/// Parameter signal of 8 bits: valid 0x00..=0xFA, indicator 0xFB..=0xFB,
/// error 0xFE..=0xFE, not present 0xFF..=0xFF.
#[derive(Debug, Clone, Copy, PartialEq, Eq, Structural)]
pub struct Param8(pub u8);

impl Signal for Param8 {
    type Base = u8;

    open spec fn spec_raw(&self) -> u8 {
        self.0
    }

    open spec fn in_valid(v: u8) -> bool {
        v <= 0xFA
    }

    open spec fn in_indicator(v: u8) -> bool {
        v == 0xFB
    }

    open spec fn in_error(v: u8) -> bool {
        v == 0xFE
    }

    open spec fn in_not_present(v: u8) -> bool {
        v == 0xFF
    }

    proof fn lemma_ranges_disjoint(v: u8) {
    }

    fn from_raw(value: u8) -> (r: Option<Self>) {
        if (value <= 0xFA) || (value == 0xFB) || (value == 0xFE) || (value == 0xFF) {
            Some(Self(value))
        } else {
            None
        }
    }

    fn to_raw(&self) -> (r: u8) {
        self.0
    }

    fn value(&self) -> (r: Option<u8>) {
        if self.is_valid() {
            Some(self.0)
        } else {
            None
        }
    }

    fn is_valid(&self) -> (r: bool) {
        self.0 <= 0xFA
    }

    fn indicator(&self) -> (r: Option<u8>) {
        if self.is_indicator() {
            Some(self.0)
        } else {
            None
        }
    }

    fn is_indicator(&self) -> (r: bool) {
        self.0 == 0xFB
    }

    fn error(&self) -> (r: Option<u8>) {
        if self.is_error() {
            Some(self.0)
        } else {
            None
        }
    }

    fn is_error(&self) -> (r: bool) {
        self.0 == 0xFE
    }

    fn not_present(&self) -> (r: Option<u8>) {
        if self.is_not_present() {
            Some(self.0)
        } else {
            None
        }
    }

    fn is_not_present(&self) -> (r: bool) {
        self.0 == 0xFF
    }
}

impl From<Param8> for u8 {
    fn from(value: Param8) -> (r: u8)
        ensures
            r == value.0,
    {
        value.0
    }
}

impl FromSpecImpl<Param8> for u8 {
    open spec fn obeys_from_spec() -> bool {
        true
    }

    open spec fn from_spec(value: Param8) -> u8 {
        value.0
    }
}

impl From<u8> for Param8 {
    fn from(value: u8) -> (r: Param8)
        ensures
            r.0 == value,
    {
        Self(value)
    }
}

impl FromSpecImpl<u8> for Param8 {
    open spec fn obeys_from_spec() -> bool {
        true
    }

    open spec fn from_spec(value: u8) -> Param8 {
        Self(value)
    }
}

/// Parameter signal of 10 bits: valid 0x000..=0x3FA, indicator 0x3FB..=0x3FB,
/// error 0x3FE..=0x3FE, not present 0x3FF..=0x3FF.
#[derive(Debug, Clone, Copy, PartialEq, Eq, Structural)]
pub struct Param10(pub u16);

impl Signal for Param10 {
    type Base = u16;

    open spec fn spec_raw(&self) -> u16 {
        self.0
    }

    open spec fn in_valid(v: u16) -> bool {
        v <= 0x3FA
    }

    open spec fn in_indicator(v: u16) -> bool {
        v == 0x3FB
    }

    open spec fn in_error(v: u16) -> bool {
        v == 0x3FE
    }

    open spec fn in_not_present(v: u16) -> bool {
        v == 0x3FF
    }

    proof fn lemma_ranges_disjoint(v: u16) {
    }

    fn from_raw(value: u16) -> (r: Option<Self>) {
        if (value <= 0x3FA) || (value == 0x3FB) || (value == 0x3FE) || (value == 0x3FF) {
            Some(Self(value))
        } else {
            None
        }
    }

    fn to_raw(&self) -> (r: u16) {
        self.0
    }

    fn value(&self) -> (r: Option<u16>) {
        if self.is_valid() {
            Some(self.0)
        } else {
            None
        }
    }

    fn is_valid(&self) -> (r: bool) {
        self.0 <= 0x3FA
    }

    fn indicator(&self) -> (r: Option<u16>) {
        if self.is_indicator() {
            Some(self.0)
        } else {
            None
        }
    }

    fn is_indicator(&self) -> (r: bool) {
        self.0 == 0x3FB
    }

    fn error(&self) -> (r: Option<u16>) {
        if self.is_error() {
            Some(self.0)
        } else {
            None
        }
    }

    fn is_error(&self) -> (r: bool) {
        self.0 == 0x3FE
    }

    fn not_present(&self) -> (r: Option<u16>) {
        if self.is_not_present() {
            Some(self.0)
        } else {
            None
        }
    }

    fn is_not_present(&self) -> (r: bool) {
        self.0 == 0x3FF
    }
}

impl From<Param10> for u16 {
    fn from(value: Param10) -> (r: u16)
        ensures
            r == value.0,
    {
        value.0
    }
}

impl FromSpecImpl<Param10> for u16 {
    open spec fn obeys_from_spec() -> bool {
        true
    }

    open spec fn from_spec(value: Param10) -> u16 {
        value.0
    }
}

impl From<u16> for Param10 {
    fn from(value: u16) -> (r: Param10)
        ensures
            r.0 == value,
    {
        Self(value)
    }
}

impl FromSpecImpl<u16> for Param10 {
    open spec fn obeys_from_spec() -> bool {
        true
    }

    open spec fn from_spec(value: u16) -> Param10 {
        Self(value)
    }
}

/// Parameter signal of 12 bits: valid 0x000..=0xFAF, indicator 0xFB0..=0xFBF,
/// error 0xFE0..=0xFEF, not present 0xFF0..=0xFFF.
#[derive(Debug, Clone, Copy, PartialEq, Eq, Structural)]
pub struct Param12(pub u16);

impl Signal for Param12 {
    type Base = u16;

    open spec fn spec_raw(&self) -> u16 {
        self.0
    }

    open spec fn in_valid(v: u16) -> bool {
        v <= 0xFAF
    }

    open spec fn in_indicator(v: u16) -> bool {
        0xFB0 <= v <= 0xFBF
    }

    open spec fn in_error(v: u16) -> bool {
        0xFE0 <= v <= 0xFEF
    }

    open spec fn in_not_present(v: u16) -> bool {
        0xFF0 <= v <= 0xFFF
    }

    proof fn lemma_ranges_disjoint(v: u16) {
    }

    fn from_raw(value: u16) -> (r: Option<Self>) {
        if (value <= 0xFAF) || (0xFB0 <= value && value <= 0xFBF) || (0xFE0 <= value && value <= 0xFEF) || (0xFF0 <= value && value <= 0xFFF) {
            Some(Self(value))
        } else {
            None
        }
    }

    fn to_raw(&self) -> (r: u16) {
        self.0
    }

    fn value(&self) -> (r: Option<u16>) {
        if self.is_valid() {
            Some(self.0)
        } else {
            None
        }
    }

    fn is_valid(&self) -> (r: bool) {
        self.0 <= 0xFAF
    }

    fn indicator(&self) -> (r: Option<u16>) {
        if self.is_indicator() {
            Some(self.0)
        } else {
            None
        }
    }

    fn is_indicator(&self) -> (r: bool) {
        0xFB0 <= self.0 && self.0 <= 0xFBF
    }

    fn error(&self) -> (r: Option<u16>) {
        if self.is_error() {
            Some(self.0)
        } else {
            None
        }
    }

    fn is_error(&self) -> (r: bool) {
        0xFE0 <= self.0 && self.0 <= 0xFEF
    }

    fn not_present(&self) -> (r: Option<u16>) {
        if self.is_not_present() {
            Some(self.0)
        } else {
            None
        }
    }

    fn is_not_present(&self) -> (r: bool) {
        0xFF0 <= self.0 && self.0 <= 0xFFF
    }
}

impl From<Param12> for u16 {
    fn from(value: Param12) -> (r: u16)
        ensures
            r == value.0,
    {
        value.0
    }
}

impl FromSpecImpl<Param12> for u16 {
    open spec fn obeys_from_spec() -> bool {
        true
    }

    open spec fn from_spec(value: Param12) -> u16 {
        value.0
    }
}

impl From<u16> for Param12 {
    fn from(value: u16) -> (r: Param12)
        ensures
            r.0 == value,
    {
        Self(value)
    }
}

impl FromSpecImpl<u16> for Param12 {
    open spec fn obeys_from_spec() -> bool {
        true
    }

    open spec fn from_spec(value: u16) -> Param12 {
        Self(value)
    }
}

/// Parameter signal of 16 bits: valid 0x0000..=0xFAFF, indicator 0xFB00..=0xFBFF,
/// error 0xFE00..=0xFEFF, not present 0xFF00..=0xFFFF.
#[derive(Debug, Clone, Copy, PartialEq, Eq, Structural)]
pub struct Param16(pub u16);

impl Signal for Param16 {
    type Base = u16;

    open spec fn spec_raw(&self) -> u16 {
        self.0
    }

    open spec fn in_valid(v: u16) -> bool {
        v <= 0xFAFF
    }

    open spec fn in_indicator(v: u16) -> bool {
        0xFB00 <= v <= 0xFBFF
    }

    open spec fn in_error(v: u16) -> bool {
        0xFE00 <= v <= 0xFEFF
    }

    open spec fn in_not_present(v: u16) -> bool {
        0xFF00 <= v <= 0xFFFF
    }

    proof fn lemma_ranges_disjoint(v: u16) {
    }

    fn from_raw(value: u16) -> (r: Option<Self>) {
        if (value <= 0xFAFF) || (0xFB00 <= value && value <= 0xFBFF) || (0xFE00 <= value && value <= 0xFEFF) || (0xFF00 <= value && value <= 0xFFFF) {
            Some(Self(value))
        } else {
            None
        }
    }

    fn to_raw(&self) -> (r: u16) {
        self.0
    }

    fn value(&self) -> (r: Option<u16>) {
        if self.is_valid() {
            Some(self.0)
        } else {
            None
        }
    }

    fn is_valid(&self) -> (r: bool) {
        self.0 <= 0xFAFF
    }

    fn indicator(&self) -> (r: Option<u16>) {
        if self.is_indicator() {
            Some(self.0)
        } else {
            None
        }
    }

    fn is_indicator(&self) -> (r: bool) {
        0xFB00 <= self.0 && self.0 <= 0xFBFF
    }

    fn error(&self) -> (r: Option<u16>) {
        if self.is_error() {
            Some(self.0)
        } else {
            None
        }
    }

    fn is_error(&self) -> (r: bool) {
        0xFE00 <= self.0 && self.0 <= 0xFEFF
    }

    fn not_present(&self) -> (r: Option<u16>) {
        if self.is_not_present() {
            Some(self.0)
        } else {
            None
        }
    }

    fn is_not_present(&self) -> (r: bool) {
        0xFF00 <= self.0 && self.0 <= 0xFFFF
    }
}

impl From<Param16> for u16 {
    fn from(value: Param16) -> (r: u16)
        ensures
            r == value.0,
    {
        value.0
    }
}

impl FromSpecImpl<Param16> for u16 {
    open spec fn obeys_from_spec() -> bool {
        true
    }

    open spec fn from_spec(value: Param16) -> u16 {
        value.0
    }
}

impl From<u16> for Param16 {
    fn from(value: u16) -> (r: Param16)
        ensures
            r.0 == value,
    {
        Self(value)
    }
}

impl FromSpecImpl<u16> for Param16 {
    open spec fn obeys_from_spec() -> bool {
        true
    }

    open spec fn from_spec(value: u16) -> Param16 {
        Self(value)
    }
}

/// Parameter signal of 20 bits: valid 0x00000..=0xFAFFF, indicator 0xFB000..=0xFBFFF,
/// error 0xFE000..=0xFEFFF, not present 0xFF000..=0xFFFFF.
#[derive(Debug, Clone, Copy, PartialEq, Eq, Structural)]
pub struct Param20(pub u32);

impl Signal for Param20 {
    type Base = u32;

    open spec fn spec_raw(&self) -> u32 {
        self.0
    }

    open spec fn in_valid(v: u32) -> bool {
        v <= 0xFAFFF
    }

    open spec fn in_indicator(v: u32) -> bool {
        0xFB000 <= v <= 0xFBFFF
    }

    open spec fn in_error(v: u32) -> bool {
        0xFE000 <= v <= 0xFEFFF
    }

    open spec fn in_not_present(v: u32) -> bool {
        0xFF000 <= v <= 0xFFFFF
    }

    proof fn lemma_ranges_disjoint(v: u32) {
    }

    fn from_raw(value: u32) -> (r: Option<Self>) {
        if (value <= 0xFAFFF) || (0xFB000 <= value && value <= 0xFBFFF) || (0xFE000 <= value && value <= 0xFEFFF) || (0xFF000 <= value && value <= 0xFFFFF) {
            Some(Self(value))
        } else {
            None
        }
    }

    fn to_raw(&self) -> (r: u32) {
        self.0
    }

    fn value(&self) -> (r: Option<u32>) {
        if self.is_valid() {
            Some(self.0)
        } else {
            None
        }
    }

    fn is_valid(&self) -> (r: bool) {
        self.0 <= 0xFAFFF
    }

    fn indicator(&self) -> (r: Option<u32>) {
        if self.is_indicator() {
            Some(self.0)
        } else {
            None
        }
    }

    fn is_indicator(&self) -> (r: bool) {
        0xFB000 <= self.0 && self.0 <= 0xFBFFF
    }

    fn error(&self) -> (r: Option<u32>) {
        if self.is_error() {
            Some(self.0)
        } else {
            None
        }
    }

    fn is_error(&self) -> (r: bool) {
        0xFE000 <= self.0 && self.0 <= 0xFEFFF
    }

    fn not_present(&self) -> (r: Option<u32>) {
        if self.is_not_present() {
            Some(self.0)
        } else {
            None
        }
    }

    fn is_not_present(&self) -> (r: bool) {
        0xFF000 <= self.0 && self.0 <= 0xFFFFF
    }
}

impl From<Param20> for u32 {
    fn from(value: Param20) -> (r: u32)
        ensures
            r == value.0,
    {
        value.0
    }
}

impl FromSpecImpl<Param20> for u32 {
    open spec fn obeys_from_spec() -> bool {
        true
    }

    open spec fn from_spec(value: Param20) -> u32 {
        value.0
    }
}

impl From<u32> for Param20 {
    fn from(value: u32) -> (r: Param20)
        ensures
            r.0 == value,
    {
        Self(value)
    }
}

impl FromSpecImpl<u32> for Param20 {
    open spec fn obeys_from_spec() -> bool {
        true
    }

    open spec fn from_spec(value: u32) -> Param20 {
        Self(value)
    }
}

/// Parameter signal of 24 bits: valid 0x000000..=0xFAFFFF, indicator 0xFB0000..=0xFBFFFF,
/// error 0xFE0000..=0xFEFFFF, not present 0xFF0000..=0xFFFFFF.
#[derive(Debug, Clone, Copy, PartialEq, Eq, Structural)]
pub struct Param24(pub u32);

impl Signal for Param24 {
    type Base = u32;

    open spec fn spec_raw(&self) -> u32 {
        self.0
    }

    open spec fn in_valid(v: u32) -> bool {
        v <= 0xFAFFFF
    }

    open spec fn in_indicator(v: u32) -> bool {
        0xFB0000 <= v <= 0xFBFFFF
    }

    open spec fn in_error(v: u32) -> bool {
        0xFE0000 <= v <= 0xFEFFFF
    }

    open spec fn in_not_present(v: u32) -> bool {
        0xFF0000 <= v <= 0xFFFFFF
    }

    proof fn lemma_ranges_disjoint(v: u32) {
    }

    fn from_raw(value: u32) -> (r: Option<Self>) {
        if (value <= 0xFAFFFF) || (0xFB0000 <= value && value <= 0xFBFFFF) || (0xFE0000 <= value && value <= 0xFEFFFF) || (0xFF0000 <= value && value <= 0xFFFFFF) {
            Some(Self(value))
        } else {
            None
        }
    }

    fn to_raw(&self) -> (r: u32) {
        self.0
    }

    fn value(&self) -> (r: Option<u32>) {
        if self.is_valid() {
            Some(self.0)
        } else {
            None
        }
    }

    fn is_valid(&self) -> (r: bool) {
        self.0 <= 0xFAFFFF
    }

    fn indicator(&self) -> (r: Option<u32>) {
        if self.is_indicator() {
            Some(self.0)
        } else {
            None
        }
    }

    fn is_indicator(&self) -> (r: bool) {
        0xFB0000 <= self.0 && self.0 <= 0xFBFFFF
    }

    fn error(&self) -> (r: Option<u32>) {
        if self.is_error() {
            Some(self.0)
        } else {
            None
        }
    }

    fn is_error(&self) -> (r: bool) {
        0xFE0000 <= self.0 && self.0 <= 0xFEFFFF
    }

    fn not_present(&self) -> (r: Option<u32>) {
        if self.is_not_present() {
            Some(self.0)
        } else {
            None
        }
    }

    fn is_not_present(&self) -> (r: bool) {
        0xFF0000 <= self.0 && self.0 <= 0xFFFFFF
    }
}

impl From<Param24> for u32 {
    fn from(value: Param24) -> (r: u32)
        ensures
            r == value.0,
    {
        value.0
    }
}

impl FromSpecImpl<Param24> for u32 {
    open spec fn obeys_from_spec() -> bool {
        true
    }

    open spec fn from_spec(value: Param24) -> u32 {
        value.0
    }
}

impl From<u32> for Param24 {
    fn from(value: u32) -> (r: Param24)
        ensures
            r.0 == value,
    {
        Self(value)
    }
}

impl FromSpecImpl<u32> for Param24 {
    open spec fn obeys_from_spec() -> bool {
        true
    }

    open spec fn from_spec(value: u32) -> Param24 {
        Self(value)
    }
}

/// Parameter signal of 28 bits: valid 0x0000000..=0xFAFFFFF, indicator 0xFB00000..=0xFBFFFFF,
/// error 0xFE00000..=0xFEFFFFF, not present 0xFF00000..=0xFFFFFFF.
#[derive(Debug, Clone, Copy, PartialEq, Eq, Structural)]
pub struct Param28(pub u32);

impl Signal for Param28 {
    type Base = u32;

    open spec fn spec_raw(&self) -> u32 {
        self.0
    }

    open spec fn in_valid(v: u32) -> bool {
        v <= 0xFAFFFFF
    }

    open spec fn in_indicator(v: u32) -> bool {
        0xFB00000 <= v <= 0xFBFFFFF
    }

    open spec fn in_error(v: u32) -> bool {
        0xFE00000 <= v <= 0xFEFFFFF
    }

    open spec fn in_not_present(v: u32) -> bool {
        0xFF00000 <= v <= 0xFFFFFFF
    }

    proof fn lemma_ranges_disjoint(v: u32) {
    }

    fn from_raw(value: u32) -> (r: Option<Self>) {
        if (value <= 0xFAFFFFF) || (0xFB00000 <= value && value <= 0xFBFFFFF) || (0xFE00000 <= value && value <= 0xFEFFFFF) || (0xFF00000 <= value && value <= 0xFFFFFFF) {
            Some(Self(value))
        } else {
            None
        }
    }

    fn to_raw(&self) -> (r: u32) {
        self.0
    }

    fn value(&self) -> (r: Option<u32>) {
        if self.is_valid() {
            Some(self.0)
        } else {
            None
        }
    }

    fn is_valid(&self) -> (r: bool) {
        self.0 <= 0xFAFFFFF
    }

    fn indicator(&self) -> (r: Option<u32>) {
        if self.is_indicator() {
            Some(self.0)
        } else {
            None
        }
    }

    fn is_indicator(&self) -> (r: bool) {
        0xFB00000 <= self.0 && self.0 <= 0xFBFFFFF
    }

    fn error(&self) -> (r: Option<u32>) {
        if self.is_error() {
            Some(self.0)
        } else {
            None
        }
    }

    fn is_error(&self) -> (r: bool) {
        0xFE00000 <= self.0 && self.0 <= 0xFEFFFFF
    }

    fn not_present(&self) -> (r: Option<u32>) {
        if self.is_not_present() {
            Some(self.0)
        } else {
            None
        }
    }

    fn is_not_present(&self) -> (r: bool) {
        0xFF00000 <= self.0 && self.0 <= 0xFFFFFFF
    }
}

impl From<Param28> for u32 {
    fn from(value: Param28) -> (r: u32)
        ensures
            r == value.0,
    {
        value.0
    }
}

impl FromSpecImpl<Param28> for u32 {
    open spec fn obeys_from_spec() -> bool {
        true
    }

    open spec fn from_spec(value: Param28) -> u32 {
        value.0
    }
}

impl From<u32> for Param28 {
    fn from(value: u32) -> (r: Param28)
        ensures
            r.0 == value,
    {
        Self(value)
    }
}

impl FromSpecImpl<u32> for Param28 {
    open spec fn obeys_from_spec() -> bool {
        true
    }

    open spec fn from_spec(value: u32) -> Param28 {
        Self(value)
    }
}

/// Parameter signal of 32 bits: valid 0x00000000..=0xFAFFFFFF, indicator 0xFB000000..=0xFBFFFFFF,
/// error 0xFE000000..=0xFEFFFFFF, not present 0xFF000000..=0xFFFFFFFF.
#[derive(Debug, Clone, Copy, PartialEq, Eq, Structural)]
pub struct Param32(pub u32);

impl Signal for Param32 {
    type Base = u32;

    open spec fn spec_raw(&self) -> u32 {
        self.0
    }

    open spec fn in_valid(v: u32) -> bool {
        v <= 0xFAFFFFFF
    }

    open spec fn in_indicator(v: u32) -> bool {
        0xFB000000 <= v <= 0xFBFFFFFF
    }

    open spec fn in_error(v: u32) -> bool {
        0xFE000000 <= v <= 0xFEFFFFFF
    }

    open spec fn in_not_present(v: u32) -> bool {
        0xFF000000 <= v <= 0xFFFFFFFF
    }

    proof fn lemma_ranges_disjoint(v: u32) {
    }

    fn from_raw(value: u32) -> (r: Option<Self>) {
        if (value <= 0xFAFFFFFF) || (0xFB000000 <= value && value <= 0xFBFFFFFF) || (0xFE000000 <= value && value <= 0xFEFFFFFF) || (0xFF000000 <= value && value <= 0xFFFFFFFF) {
            Some(Self(value))
        } else {
            None
        }
    }

    fn to_raw(&self) -> (r: u32) {
        self.0
    }

    fn value(&self) -> (r: Option<u32>) {
        if self.is_valid() {
            Some(self.0)
        } else {
            None
        }
    }

    fn is_valid(&self) -> (r: bool) {
        self.0 <= 0xFAFFFFFF
    }

    fn indicator(&self) -> (r: Option<u32>) {
        if self.is_indicator() {
            Some(self.0)
        } else {
            None
        }
    }

    fn is_indicator(&self) -> (r: bool) {
        0xFB000000 <= self.0 && self.0 <= 0xFBFFFFFF
    }

    fn error(&self) -> (r: Option<u32>) {
        if self.is_error() {
            Some(self.0)
        } else {
            None
        }
    }

    fn is_error(&self) -> (r: bool) {
        0xFE000000 <= self.0 && self.0 <= 0xFEFFFFFF
    }

    fn not_present(&self) -> (r: Option<u32>) {
        if self.is_not_present() {
            Some(self.0)
        } else {
            None
        }
    }

    fn is_not_present(&self) -> (r: bool) {
        0xFF000000 <= self.0 && self.0 <= 0xFFFFFFFF
    }
}

impl From<Param32> for u32 {
    fn from(value: Param32) -> (r: u32)
        ensures
            r == value.0,
    {
        value.0
    }
}

impl FromSpecImpl<Param32> for u32 {
    open spec fn obeys_from_spec() -> bool {
        true
    }

    open spec fn from_spec(value: Param32) -> u32 {
        value.0
    }
}

impl From<u32> for Param32 {
    fn from(value: u32) -> (r: Param32)
        ensures
            r.0 == value,
    {
        Self(value)
    }
}

impl FromSpecImpl<u32> for Param32 {
    open spec fn obeys_from_spec() -> bool {
        true
    }

    open spec fn from_spec(value: u32) -> Param32 {
        Self(value)
    }
}

/// Discrete parameter
#[derive(Debug, Clone, Copy, PartialEq, Eq, Structural)]
pub enum Discrete {
    Disabled,
    Enabled,
    ErrorIndicator,
    NotAvailable,
}

impl Discrete {
    /// The two-bit code.
    pub open spec fn spec_code(self) -> u8 {
        match self {
            Discrete::Disabled => 0,
            Discrete::Enabled => 1,
            Discrete::ErrorIndicator => 2,
            Discrete::NotAvailable => 3,
        }
    }

    /// The value with two-bit code `value`; `Err(value)` above 3.
    pub fn try_from(value: u8) -> (r: Result<Discrete, u8>)
        ensures
            value <= 3 <==> r is Ok,
            r matches Ok(x) ==> x.spec_code() == value,
            r matches Err(e) ==> e == value,
    {
        match value {
            0 => Ok(Self::Disabled),
            1 => Ok(Self::Enabled),
            2 => Ok(Self::ErrorIndicator),
            3 => Ok(Self::NotAvailable),
            _ => Err(value),
        }
    }
}

impl From<Discrete> for u8 {
    fn from(value: Discrete) -> (r: u8)
        ensures
            r == value.spec_code(),
    {
        match value {
            Discrete::Disabled => 0,
            Discrete::Enabled => 1,
            Discrete::ErrorIndicator => 2,
            Discrete::NotAvailable => 3,
        }
    }
}

impl FromSpecImpl<Discrete> for u8 {
    open spec fn obeys_from_spec() -> bool {
        true
    }

    open spec fn from_spec(value: Discrete) -> u8 {
        value.spec_code()
    }
}

/// Control command
#[derive(Debug, Clone, Copy, PartialEq, Eq, Structural)]
pub enum Command {
    Disable,
    Enable,
    Reserved,
    NoAction,
}

impl Command {
    /// The two-bit code.
    pub open spec fn spec_code(self) -> u8 {
        match self {
            Command::Disable => 0,
            Command::Enable => 1,
            Command::Reserved => 2,
            Command::NoAction => 3,
        }
    }

    /// The value with two-bit code `value`; `Err(value)` above 3.
    pub fn try_from(value: u8) -> (r: Result<Command, u8>)
        ensures
            value <= 3 <==> r is Ok,
            r matches Ok(x) ==> x.spec_code() == value,
            r matches Err(e) ==> e == value,
    {
        match value {
            0 => Ok(Self::Disable),
            1 => Ok(Self::Enable),
            2 => Ok(Self::Reserved),
            3 => Ok(Self::NoAction),
            _ => Err(value),
        }
    }
}

impl From<Command> for u8 {
    fn from(value: Command) -> (r: u8)
        ensures
            r == value.spec_code(),
    {
        match value {
            Command::Disable => 0,
            Command::Enable => 1,
            Command::Reserved => 2,
            Command::NoAction => 3,
        }
    }
}

impl FromSpecImpl<Command> for u8 {
    open spec fn obeys_from_spec() -> bool {
        true
    }

    open spec fn from_spec(value: Command) -> u8 {
        value.spec_code()
    }
}

/// The two-bit discrete code: bit 1 clear marks a state, and then bit 0 is
/// the state itself (0b00 disabled, 0b01 enabled); bit 1 set marks no state,
/// 0b10 an error and 0b11 (all bits set) not available. So decoding a code
/// and encoding the result give the code back, and distinct values have
/// distinct codes.
pub proof fn lemma_discrete_codes(x: Discrete, y: Discrete)
    ensures
        x.spec_code() <= 3,
        (x.spec_code() & 2 == 0) == (x == Discrete::Disabled || x == Discrete::Enabled),
        (x == Discrete::Disabled || x == Discrete::Enabled) ==> ((x.spec_code() & 1 == 1) == (x
            == Discrete::Enabled)),
        (x.spec_code() == 3) == (x == Discrete::NotAvailable),
        (x.spec_code() == 2) == (x == Discrete::ErrorIndicator),
        x != y ==> x.spec_code() != y.spec_code(),
{
    assert(0u8 & 2 == 0 && 1u8 & 2 == 0 && 2u8 & 2 != 0 && 3u8 & 2 != 0 && 0u8 & 1 == 0 && 1u8 & 1
        == 1) by (bit_vector);
}

/// The two-bit control command code: bit 1 clear marks an order, and then
/// bit 0 tells enable (0b01) from disable (0b00); 0b10 is reserved and 0b11
/// (all bits set) asks for no action. Distinct commands have distinct codes.
pub proof fn lemma_command_codes(x: Command, y: Command)
    ensures
        x.spec_code() <= 3,
        (x.spec_code() & 2 == 0) == (x == Command::Disable || x == Command::Enable),
        (x == Command::Disable || x == Command::Enable) ==> ((x.spec_code() & 1 == 1) == (x
            == Command::Enable)),
        (x.spec_code() == 3) == (x == Command::NoAction),
        x != y ==> x.spec_code() != y.spec_code(),
{
    assert(0u8 & 2 == 0 && 1u8 & 2 == 0 && 2u8 & 2 != 0 && 3u8 & 2 != 0 && 0u8 & 1 == 0 && 1u8 & 1
        == 1) by (bit_vector);
}

} // verus!
