//! Premium tier of a guild.

use crate::wire_enum::{debug_repr, lookup, resolve_name, spec_debug_chars, WireEnum};
use vstd::prelude::*;

verus! {

/// Premium tier of a guild.
///
/// Wraps the raw wire integer. Raw values the table does not name are carried
/// unchanged, so a service that introduces a new tier cannot break decoding.
#[derive(Clone, Copy, Debug, Eq, Hash, PartialEq, Structural)]
pub struct PremiumTier(pub u8);

impl PremiumTier {
    /// No premium tier.
    pub fn none() -> (r: Self)
        ensures
            r.raw_spec() == 0,
    {
        PremiumTier(0)
    }

    /// First premium tier.
    pub fn tier_1() -> (r: Self)
        ensures
            r.raw_spec() == 1,
    {
        PremiumTier(1)
    }

    /// Second premium tier.
    pub fn tier_2() -> (r: Self)
        ensures
            r.raw_spec() == 2,
    {
        PremiumTier(2)
    }

    /// Third premium tier.
    pub fn tier_3() -> (r: Self)
        ensures
            r.raw_spec() == 3,
    {
        PremiumTier(3)
    }

    /// Create a new premium tier from a dynamic value.
    ///
    /// The provided value isn't validated: a raw value the table does not
    /// name is stored like any other.
    pub fn new(premium_tier: u8) -> (r: Self)
        ensures
            r.raw_spec() == premium_tier,
    {
        PremiumTier(premium_tier)
    }

    /// Retrieve the raw value of the premium tier.
    pub fn get(&self) -> (r: u8)
        ensures
            r == self.raw_spec(),
    {
        self.0
    }

    /// Name of the associated constant.
    ///
    /// `None` exactly when the value doesn't have a declared constant.
    pub fn name(self) -> (r: Option<&'static str>)
        ensures
            match r {
                Some(s) => lookup(Self::table_spec(), self.raw_spec()) == Some(s@),
                None => lookup(Self::table_spec(), self.raw_spec()) is None,
            },
    {
        resolve_name(self)
    }

    /// Diagnostic rendering: the declared name beside the raw value when the
    /// table knows it, else the raw value alone.
    pub fn debug_text(self) -> (s: String)
        ensures
            s@ == spec_debug_chars(Self::kind_name_spec(), Self::table_spec(), self.raw_spec()),
    {
        debug_repr(self)
    }
}

impl WireEnum for PremiumTier {
    open spec fn table_spec() -> Seq<(Seq<char>, u8)> {
        seq![("NONE"@, 0u8), ("TIER_1"@, 1u8), ("TIER_2"@, 2u8), ("TIER_3"@, 3u8)]
    }

    open spec fn kind_name_spec() -> Seq<char> {
        "PremiumTier"@
    }

    open spec fn raw_spec(self) -> u8 {
        self.0
    }

    proof fn table_distinct() {
    }

    proof fn raw_determines(a: Self, b: Self) {
    }

    fn table() -> (t: Vec<(&'static str, u8)>) {
        let t: Vec<(&'static str, u8)> = vec![
            ("NONE", 0),
            ("TIER_1", 1),
            ("TIER_2", 2),
            ("TIER_3", 3),
        ];
        t
    }

    fn kind_name() -> (s: &'static str) {
        "PremiumTier"
    }

    fn from_raw(v: u8) -> (r: Self) {
        PremiumTier(v)
    }

    fn raw(self) -> (r: u8) {
        self.0
    }
}

impl Default for PremiumTier {
    /// The domain-nominated default: no premium tier.
    fn default() -> (r: Self)
        ensures
            r.raw_spec() == 0,
    {
        PremiumTier(0)
    }
}

impl From<u8> for PremiumTier {
    fn from(value: u8) -> (r: Self) {
        PremiumTier(value)
    }
}

impl vstd::std_specs::convert::FromSpecImpl<u8> for PremiumTier {
    open spec fn obeys_from_spec() -> bool {
        true
    }

    open spec fn from_spec(v: u8) -> PremiumTier {
        PremiumTier(v)
    }
}

impl From<PremiumTier> for u8 {
    fn from(value: PremiumTier) -> (r: u8) {
        value.0
    }
}

impl vstd::std_specs::convert::FromSpecImpl<PremiumTier> for u8 {
    open spec fn obeys_from_spec() -> bool {
        true
    }

    open spec fn from_spec(v: PremiumTier) -> u8 {
        v.0
    }
}

} // verus!
