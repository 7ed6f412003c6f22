//! Event context in which an auto moderation rule is checked.

use crate::wire_enum::{debug_repr, lookup, resolve_name, spec_debug_chars, WireEnum};
use vstd::prelude::*;

verus! {

/// Indicates in what event context a rule should be checked.
///
/// Wraps the raw wire integer. Raw values the table does not name are carried
/// unchanged, so a service that introduces a new event context cannot break
/// decoding.
#[derive(Clone, Copy, Debug, Eq, Hash, PartialEq, Structural)]
pub struct AutoModerationEventType(pub u8);

impl AutoModerationEventType {
    /// When a member sends or edits a message in a guild.
    pub fn message_send() -> (r: Self)
        ensures
            r.raw_spec() == 1,
    {
        AutoModerationEventType(1)
    }

    /// Create a new auto moderation event type from a dynamic value.
    ///
    /// The provided value isn't validated: a raw value the table does not
    /// name is stored like any other.
    pub fn new(auto_moderation_event_type: u8) -> (r: Self)
        ensures
            r.raw_spec() == auto_moderation_event_type,
    {
        AutoModerationEventType(auto_moderation_event_type)
    }

    /// Retrieve the raw value of the auto moderation event type.
    pub fn get(&self) -> (r: u8)
        ensures
            r == self.raw_spec(),
    {
        self.0
    }

    /// Name of the associated constant.
    ///
    /// `None` exactly when the value doesn't have a declared constant.
    pub fn name(self) -> (r: Option<&'static str>)
        ensures
            match r {
                Some(s) => lookup(Self::table_spec(), self.raw_spec()) == Some(s@),
                None => lookup(Self::table_spec(), self.raw_spec()) is None,
            },
    {
        resolve_name(self)
    }

    /// Diagnostic rendering: the declared name beside the raw value when the
    /// table knows it, else the raw value alone.
    pub fn debug_text(self) -> (s: String)
        ensures
            s@ == spec_debug_chars(Self::kind_name_spec(), Self::table_spec(), self.raw_spec()),
    {
        debug_repr(self)
    }
}

impl WireEnum for AutoModerationEventType {
    open spec fn table_spec() -> Seq<(Seq<char>, u8)> {
        seq![("MESSAGE_SEND"@, 1u8)]
    }

    open spec fn kind_name_spec() -> Seq<char> {
        "AutoModerationEventType"@
    }

    open spec fn raw_spec(self) -> u8 {
        self.0
    }

    proof fn table_distinct() {
    }

    proof fn raw_determines(a: Self, b: Self) {
    }

    fn table() -> (t: Vec<(&'static str, u8)>) {
        let t: Vec<(&'static str, u8)> = vec![("MESSAGE_SEND", 1)];
        t
    }

    fn kind_name() -> (s: &'static str) {
        "AutoModerationEventType"
    }

    fn from_raw(v: u8) -> (r: Self) {
        AutoModerationEventType(v)
    }

    fn raw(self) -> (r: u8) {
        self.0
    }
}

impl From<u8> for AutoModerationEventType {
    fn from(value: u8) -> (r: Self) {
        AutoModerationEventType(value)
    }
}

impl vstd::std_specs::convert::FromSpecImpl<u8> for AutoModerationEventType {
    open spec fn obeys_from_spec() -> bool {
        true
    }

    open spec fn from_spec(v: u8) -> AutoModerationEventType {
        AutoModerationEventType(v)
    }
}

impl From<AutoModerationEventType> for u8 {
    fn from(value: AutoModerationEventType) -> (r: u8) {
        value.0
    }
}

impl vstd::std_specs::convert::FromSpecImpl<AutoModerationEventType> for u8 {
    open spec fn obeys_from_spec() -> bool {
        true
    }

    open spec fn from_spec(v: AutoModerationEventType) -> u8 {
        v.0
    }
}

} // verus!
