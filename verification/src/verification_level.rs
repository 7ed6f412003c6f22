//! Verification level required of a guild's members.

use crate::wire_enum::{debug_repr, lookup, resolve_name, spec_debug_chars, WireEnum};
use core::cmp::Ordering;
use vstd::prelude::*;

verus! {

/// Verification level required of a guild's members.
///
/// Wraps the raw wire integer. Raw values the table does not name are carried
/// unchanged, so a service that introduces a new level cannot break decoding.
/// Levels are ordered by their raw value.
#[derive(Clone, Copy, Debug, Eq, Hash, PartialEq, Structural)]
pub struct VerificationLevel(pub u8);

impl VerificationLevel {
    /// No verification required.
    pub fn none() -> (r: Self)
        ensures
            r.raw_spec() == 0,
    {
        VerificationLevel(0)
    }

    /// A verified email is required.
    pub fn low() -> (r: Self)
        ensures
            r.raw_spec() == 1,
    {
        VerificationLevel(1)
    }

    /// Membership of a minimum age is required.
    pub fn medium() -> (r: Self)
        ensures
            r.raw_spec() == 2,
    {
        VerificationLevel(2)
    }

    /// Guild membership of a minimum duration is required.
    pub fn high() -> (r: Self)
        ensures
            r.raw_spec() == 3,
    {
        VerificationLevel(3)
    }

    /// A verified phone number is required.
    pub fn very_high() -> (r: Self)
        ensures
            r.raw_spec() == 4,
    {
        VerificationLevel(4)
    }

    /// Create a new verification level from a dynamic value.
    ///
    /// The provided value isn't validated: a raw value the table does not
    /// name is stored like any other.
    pub fn new(verification_level: u8) -> (r: Self)
        ensures
            r.raw_spec() == verification_level,
    {
        VerificationLevel(verification_level)
    }

    /// Retrieve the raw value of the verification level.
    pub fn get(&self) -> (r: u8)
        ensures
            r == self.raw_spec(),
    {
        self.0
    }

    /// Name of the associated constant.
    ///
    /// `None` exactly when the value doesn't have a declared constant.
    pub fn name(self) -> (r: Option<&'static str>)
        ensures
            match r {
                Some(s) => lookup(Self::table_spec(), self.raw_spec()) == Some(s@),
                None => lookup(Self::table_spec(), self.raw_spec()) is None,
            },
    {
        resolve_name(self)
    }

    /// Diagnostic rendering: the declared name beside the raw value when the
    /// table knows it, else the raw value alone.
    pub fn debug_text(self) -> (s: String)
        ensures
            s@ == spec_debug_chars(Self::kind_name_spec(), Self::table_spec(), self.raw_spec()),
    {
        debug_repr(self)
    }
}

impl WireEnum for VerificationLevel {
    open spec fn table_spec() -> Seq<(Seq<char>, u8)> {
        seq![
            ("NONE"@, 0u8),
            ("LOW"@, 1u8),
            ("MEDIUM"@, 2u8),
            ("HIGH"@, 3u8),
            ("VERY_HIGH"@, 4u8),
        ]
    }

    open spec fn kind_name_spec() -> Seq<char> {
        "VerificationLevel"@
    }

    open spec fn raw_spec(self) -> u8 {
        self.0
    }

    proof fn table_distinct() {
    }

    proof fn raw_determines(a: Self, b: Self) {
    }

    fn table() -> (t: Vec<(&'static str, u8)>) {
        let t: Vec<(&'static str, u8)> = vec![
            ("NONE", 0),
            ("LOW", 1),
            ("MEDIUM", 2),
            ("HIGH", 3),
            ("VERY_HIGH", 4),
        ];
        t
    }

    fn kind_name() -> (s: &'static str) {
        "VerificationLevel"
    }

    fn from_raw(v: u8) -> (r: Self) {
        VerificationLevel(v)
    }

    fn raw(self) -> (r: u8) {
        self.0
    }
}

impl PartialOrd for VerificationLevel {
    /// Levels compare by their raw value, in numeric order.
    fn partial_cmp(&self, other: &Self) -> (r: Option<Ordering>) {
        if self.0 < other.0 {
            Some(Ordering::Less)
        } else if self.0 == other.0 {
            Some(Ordering::Equal)
        } else {
            Some(Ordering::Greater)
        }
    }
}

impl vstd::std_specs::cmp::PartialOrdSpecImpl for VerificationLevel {
    open spec fn obeys_partial_cmp_spec() -> bool {
        true
    }

    open spec fn partial_cmp_spec(&self, other: &Self) -> Option<Ordering> {
        if self.0 < other.0 {
            Some(Ordering::Less)
        } else if self.0 == other.0 {
            Some(Ordering::Equal)
        } else {
            Some(Ordering::Greater)
        }
    }
}

impl From<u8> for VerificationLevel {
    fn from(value: u8) -> (r: Self) {
        VerificationLevel(value)
    }
}

impl vstd::std_specs::convert::FromSpecImpl<u8> for VerificationLevel {
    open spec fn obeys_from_spec() -> bool {
        true
    }

    open spec fn from_spec(v: u8) -> VerificationLevel {
        VerificationLevel(v)
    }
}

impl From<VerificationLevel> for u8 {
    fn from(value: VerificationLevel) -> (r: u8) {
        value.0
    }
}

impl vstd::std_specs::convert::FromSpecImpl<VerificationLevel> for u8 {
    open spec fn obeys_from_spec() -> bool {
        true
    }

    open spec fn from_spec(v: VerificationLevel) -> u8 {
        v.0
    }
}

} // verus!
