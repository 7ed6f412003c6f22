//! Type of activity that a presence can carry.

use crate::wire_enum::{debug_repr, lookup, resolve_name, spec_debug_chars, WireEnum};
use vstd::prelude::*;

verus! {

/// Type of activity shown in a user's presence.
///
/// Wraps the raw wire integer. Raw values the table does not name are carried
/// unchanged, so a service that introduces a new activity type cannot break
/// decoding.
#[derive(Clone, Copy, Debug, Eq, Hash, PartialEq, Structural)]
pub struct ActivityType(pub u8);

impl ActivityType {
    /// Activity is a game being played.
    pub fn playing() -> (r: Self)
        ensures
            r.raw_spec() == 0,
    {
        ActivityType(0)
    }

    /// Activity is a stream.
    pub fn streaming() -> (r: Self)
        ensures
            r.raw_spec() == 1,
    {
        ActivityType(1)
    }

    /// Activity is something being listened to.
    pub fn listening() -> (r: Self)
        ensures
            r.raw_spec() == 2,
    {
        ActivityType(2)
    }

    /// Activity is something being watched.
    pub fn watching() -> (r: Self)
        ensures
            r.raw_spec() == 3,
    {
        ActivityType(3)
    }

    /// Activity is a custom status.
    pub fn custom() -> (r: Self)
        ensures
            r.raw_spec() == 4,
    {
        ActivityType(4)
    }

    /// Activity is a competition.
    pub fn competing() -> (r: Self)
        ensures
            r.raw_spec() == 5,
    {
        ActivityType(5)
    }

    /// Create a new activity type from a dynamic value.
    ///
    /// The provided value isn't validated: a raw value the table does not
    /// name is stored like any other.
    pub fn new(activity_type: u8) -> (r: Self)
        ensures
            r.raw_spec() == activity_type,
    {
        ActivityType(activity_type)
    }

    /// Retrieve the raw value of the activity type.
    pub fn get(&self) -> (r: u8)
        ensures
            r == self.raw_spec(),
    {
        self.0
    }

    /// Name of the associated constant.
    ///
    /// `None` exactly when the value doesn't have a declared constant.
    pub fn name(self) -> (r: Option<&'static str>)
        ensures
            match r {
                Some(s) => lookup(Self::table_spec(), self.raw_spec()) == Some(s@),
                None => lookup(Self::table_spec(), self.raw_spec()) is None,
            },
    {
        resolve_name(self)
    }

    /// Diagnostic rendering: the declared name beside the raw value when the
    /// table knows it, else the raw value alone.
    pub fn debug_text(self) -> (s: String)
        ensures
            s@ == spec_debug_chars(Self::kind_name_spec(), Self::table_spec(), self.raw_spec()),
    {
        debug_repr(self)
    }
}

impl WireEnum for ActivityType {
    open spec fn table_spec() -> Seq<(Seq<char>, u8)> {
        seq![
            ("PLAYING"@, 0u8),
            ("STREAMING"@, 1u8),
            ("LISTENING"@, 2u8),
            ("WATCHING"@, 3u8),
            ("CUSTOM"@, 4u8),
            ("COMPETING"@, 5u8),
        ]
    }

    open spec fn kind_name_spec() -> Seq<char> {
        "ActivityType"@
    }

    open spec fn raw_spec(self) -> u8 {
        self.0
    }

    proof fn table_distinct() {
    }

    proof fn raw_determines(a: Self, b: Self) {
    }

    fn table() -> (t: Vec<(&'static str, u8)>) {
        let t: Vec<(&'static str, u8)> = vec![
            ("PLAYING", 0),
            ("STREAMING", 1),
            ("LISTENING", 2),
            ("WATCHING", 3),
            ("CUSTOM", 4),
            ("COMPETING", 5),
        ];
        t
    }

    fn kind_name() -> (s: &'static str) {
        "ActivityType"
    }

    fn from_raw(v: u8) -> (r: Self) {
        ActivityType(v)
    }

    fn raw(self) -> (r: u8) {
        self.0
    }
}

impl Default for ActivityType {
    /// The domain-nominated default: the playing constant.
    fn default() -> (r: Self)
        ensures
            r.raw_spec() == 0,
    {
        ActivityType(0)
    }
}

impl From<u8> for ActivityType {
    fn from(value: u8) -> (r: Self) {
        ActivityType(value)
    }
}

impl vstd::std_specs::convert::FromSpecImpl<u8> for ActivityType {
    open spec fn obeys_from_spec() -> bool {
        true
    }

    open spec fn from_spec(v: u8) -> ActivityType {
        ActivityType(v)
    }
}

impl From<ActivityType> for u8 {
    fn from(value: ActivityType) -> (r: u8) {
        value.0
    }
}

impl vstd::std_specs::convert::FromSpecImpl<ActivityType> for u8 {
    open spec fn obeys_from_spec() -> bool {
        true
    }

    open spec fn from_spec(v: ActivityType) -> u8 {
        v.0
    }
}

} // verus!
