//! Visibility of a user's third-party account connection.

use crate::wire_enum::{debug_repr, lookup, resolve_name, spec_debug_chars, WireEnum};
use vstd::prelude::*;

verus! {

/// Visibility of a user's connection.
///
/// Wraps the raw wire integer. Raw values the table does not name are carried
/// unchanged, so a service that introduces a new visibility cannot break
/// decoding.
#[derive(Clone, Copy, Debug, Eq, Hash, PartialEq, Structural)]
pub struct ConnectionVisibility(pub u8);

impl ConnectionVisibility {
    /// Connection isn't visible to anyone.
    pub fn none() -> (r: Self)
        ensures
            r.raw_spec() == 0,
    {
        ConnectionVisibility(0)
    }

    /// Connection is visible to everyone.
    pub fn everyone() -> (r: Self)
        ensures
            r.raw_spec() == 1,
    {
        ConnectionVisibility(1)
    }

    /// Create a new connection visibility from a dynamic value.
    ///
    /// The provided value isn't validated: a raw value the table does not
    /// name is stored like any other.
    pub fn new(connection_visibility: u8) -> (r: Self)
        ensures
            r.raw_spec() == connection_visibility,
    {
        ConnectionVisibility(connection_visibility)
    }

    /// Retrieve the raw value of the connection visibility.
    pub fn get(&self) -> (r: u8)
        ensures
            r == self.raw_spec(),
    {
        self.0
    }

    /// Name of the associated constant.
    ///
    /// `None` exactly when the value doesn't have a declared constant.
    pub fn name(self) -> (r: Option<&'static str>)
        ensures
            match r {
                Some(s) => lookup(Self::table_spec(), self.raw_spec()) == Some(s@),
                None => lookup(Self::table_spec(), self.raw_spec()) is None,
            },
    {
        resolve_name(self)
    }

    /// Diagnostic rendering: the declared name beside the raw value when the
    /// table knows it, else the raw value alone.
    pub fn debug_text(self) -> (s: String)
        ensures
            s@ == spec_debug_chars(Self::kind_name_spec(), Self::table_spec(), self.raw_spec()),
    {
        debug_repr(self)
    }
}

impl WireEnum for ConnectionVisibility {
    open spec fn table_spec() -> Seq<(Seq<char>, u8)> {
        seq![("NONE"@, 0u8), ("EVERYONE"@, 1u8)]
    }

    open spec fn kind_name_spec() -> Seq<char> {
        "ConnectionVisibility"@
    }

    open spec fn raw_spec(self) -> u8 {
        self.0
    }

    proof fn table_distinct() {
    }

    proof fn raw_determines(a: Self, b: Self) {
    }

    fn table() -> (t: Vec<(&'static str, u8)>) {
        let t: Vec<(&'static str, u8)> = vec![("NONE", 0), ("EVERYONE", 1)];
        t
    }

    fn kind_name() -> (s: &'static str) {
        "ConnectionVisibility"
    }

    fn from_raw(v: u8) -> (r: Self) {
        ConnectionVisibility(v)
    }

    fn raw(self) -> (r: u8) {
        self.0
    }
}

impl From<u8> for ConnectionVisibility {
    fn from(value: u8) -> (r: Self) {
        ConnectionVisibility(value)
    }
}

impl vstd::std_specs::convert::FromSpecImpl<u8> for ConnectionVisibility {
    open spec fn obeys_from_spec() -> bool {
        true
    }

    open spec fn from_spec(v: u8) -> ConnectionVisibility {
        ConnectionVisibility(v)
    }
}

impl From<ConnectionVisibility> for u8 {
    fn from(value: ConnectionVisibility) -> (r: u8) {
        value.0
    }
}

impl vstd::std_specs::convert::FromSpecImpl<ConnectionVisibility> for u8 {
    open spec fn obeys_from_spec() -> bool {
        true
    }

    open spec fn from_spec(v: ConnectionVisibility) -> u8 {
        v.0
    }
}

} // verus!
