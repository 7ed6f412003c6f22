//! Type of premium subscription a user carries.

use crate::wire_enum::{debug_repr, lookup, resolve_name, spec_debug_chars, WireEnum};
use vstd::prelude::*;

verus! {

/// Type of premium subscription of a user.
///
/// Wraps the raw wire integer. Raw values the table does not name are carried
/// unchanged, so a service that introduces a new subscription type cannot
/// break decoding.
#[derive(Clone, Copy, Debug, Eq, Hash, PartialEq, Structural)]
pub struct PremiumType(pub u8);

impl PremiumType {
    /// User doesn't have premium.
    pub fn none() -> (r: Self)
        ensures
            r.raw_spec() == 0,
    {
        PremiumType(0)
    }

    /// User has the classic subscription.
    pub fn nitro_classic() -> (r: Self)
        ensures
            r.raw_spec() == 1,
    {
        PremiumType(1)
    }

    /// User has the standard subscription.
    pub fn nitro() -> (r: Self)
        ensures
            r.raw_spec() == 2,
    {
        PremiumType(2)
    }

    /// User has the basic subscription.
    pub fn nitro_basic() -> (r: Self)
        ensures
            r.raw_spec() == 3,
    {
        PremiumType(3)
    }

    /// Create a new premium type from a dynamic value.
    ///
    /// The provided value isn't validated: a raw value the table does not
    /// name is stored like any other.
    pub fn new(premium_type: u8) -> (r: Self)
        ensures
            r.raw_spec() == premium_type,
    {
        PremiumType(premium_type)
    }

    /// Retrieve the raw value of the premium type.
    pub fn get(&self) -> (r: u8)
        ensures
            r == self.raw_spec(),
    {
        self.0
    }

    /// Name of the associated constant.
    ///
    /// `None` exactly when the value doesn't have a declared constant.
    pub fn name(self) -> (r: Option<&'static str>)
        ensures
            match r {
                Some(s) => lookup(Self::table_spec(), self.raw_spec()) == Some(s@),
                None => lookup(Self::table_spec(), self.raw_spec()) is None,
            },
    {
        resolve_name(self)
    }

    /// Diagnostic rendering: the declared name beside the raw value when the
    /// table knows it, else the raw value alone.
    pub fn debug_text(self) -> (s: String)
        ensures
            s@ == spec_debug_chars(Self::kind_name_spec(), Self::table_spec(), self.raw_spec()),
    {
        debug_repr(self)
    }
}

impl WireEnum for PremiumType {
    open spec fn table_spec() -> Seq<(Seq<char>, u8)> {
        seq![
            ("NONE"@, 0u8),
            ("NITRO_CLASSIC"@, 1u8),
            ("NITRO"@, 2u8),
            ("NITRO_BASIC"@, 3u8),
        ]
    }

    open spec fn kind_name_spec() -> Seq<char> {
        "PremiumType"@
    }

    open spec fn raw_spec(self) -> u8 {
        self.0
    }

    proof fn table_distinct() {
    }

    proof fn raw_determines(a: Self, b: Self) {
    }

    fn table() -> (t: Vec<(&'static str, u8)>) {
        let t: Vec<(&'static str, u8)> = vec![
            ("NONE", 0),
            ("NITRO_CLASSIC", 1),
            ("NITRO", 2),
            ("NITRO_BASIC", 3),
        ];
        t
    }

    fn kind_name() -> (s: &'static str) {
        "PremiumType"
    }

    fn from_raw(v: u8) -> (r: Self) {
        PremiumType(v)
    }

    fn raw(self) -> (r: u8) {
        self.0
    }
}

impl From<u8> for PremiumType {
    fn from(value: u8) -> (r: Self) {
        PremiumType(value)
    }
}

impl vstd::std_specs::convert::FromSpecImpl<u8> for PremiumType {
    open spec fn obeys_from_spec() -> bool {
        true
    }

    open spec fn from_spec(v: u8) -> PremiumType {
        PremiumType(v)
    }
}

impl From<PremiumType> for u8 {
    fn from(value: PremiumType) -> (r: u8) {
        value.0
    }
}

impl vstd::std_specs::convert::FromSpecImpl<PremiumType> for u8 {
    open spec fn obeys_from_spec() -> bool {
        true
    }

    open spec fn from_spec(v: PremiumType) -> u8 {
        v.0
    }
}

} // verus!
