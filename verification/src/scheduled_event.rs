//! Scheduled events of a guild.

use crate::wire_enum::{debug_repr, lookup, resolve_name, spec_debug_chars, WireEnum};
use vstd::prelude::*;

verus! {

/// Type of entity associated with a scheduled event.
///
/// Wraps the raw wire integer. Raw values the table does not name are carried
/// unchanged, so a service that introduces a new entity type cannot break
/// decoding.
#[derive(Clone, Copy, Debug, Eq, Hash, PartialEq, Structural)]
pub struct EntityType(pub u8);

impl EntityType {
    /// Event takes place in a stage instance.
    pub fn stage_instance() -> (r: Self)
        ensures
            r.raw_spec() == 1,
    {
        EntityType(1)
    }

    /// Event takes place in a voice channel.
    pub fn voice() -> (r: Self)
        ensures
            r.raw_spec() == 2,
    {
        EntityType(2)
    }

    /// Event takes place outside the platform.
    pub fn external() -> (r: Self)
        ensures
            r.raw_spec() == 3,
    {
        EntityType(3)
    }

    /// Create a new entity type from a dynamic value.
    ///
    /// The provided value isn't validated: a raw value the table does not
    /// name is stored like any other.
    pub fn new(entity_type: u8) -> (r: Self)
        ensures
            r.raw_spec() == entity_type,
    {
        EntityType(entity_type)
    }

    /// Retrieve the raw value of the entity type.
    pub fn get(&self) -> (r: u8)
        ensures
            r == self.raw_spec(),
    {
        self.0
    }

    /// Name of the associated constant.
    ///
    /// `None` exactly when the value doesn't have a declared constant.
    pub fn name(self) -> (r: Option<&'static str>)
        ensures
            match r {
                Some(s) => lookup(Self::table_spec(), self.raw_spec()) == Some(s@),
                None => lookup(Self::table_spec(), self.raw_spec()) is None,
            },
    {
        resolve_name(self)
    }

    /// Diagnostic rendering: the declared name beside the raw value when the
    /// table knows it, else the raw value alone.
    pub fn debug_text(self) -> (s: String)
        ensures
            s@ == spec_debug_chars(Self::kind_name_spec(), Self::table_spec(), self.raw_spec()),
    {
        debug_repr(self)
    }
}

impl WireEnum for EntityType {
    open spec fn table_spec() -> Seq<(Seq<char>, u8)> {
        seq![("STAGE_INSTANCE"@, 1u8), ("VOICE"@, 2u8), ("EXTERNAL"@, 3u8)]
    }

    open spec fn kind_name_spec() -> Seq<char> {
        "EntityType"@
    }

    open spec fn raw_spec(self) -> u8 {
        self.0
    }

    proof fn table_distinct() {
    }

    proof fn raw_determines(a: Self, b: Self) {
    }

    fn table() -> (t: Vec<(&'static str, u8)>) {
        let t: Vec<(&'static str, u8)> = vec![
            ("STAGE_INSTANCE", 1),
            ("VOICE", 2),
            ("EXTERNAL", 3),
        ];
        t
    }

    fn kind_name() -> (s: &'static str) {
        "EntityType"
    }

    fn from_raw(v: u8) -> (r: Self) {
        EntityType(v)
    }

    fn raw(self) -> (r: u8) {
        self.0
    }
}

impl From<u8> for EntityType {
    fn from(value: u8) -> (r: Self) {
        EntityType(value)
    }
}

impl vstd::std_specs::convert::FromSpecImpl<u8> for EntityType {
    open spec fn obeys_from_spec() -> bool {
        true
    }

    open spec fn from_spec(v: u8) -> EntityType {
        EntityType(v)
    }
}

impl From<EntityType> for u8 {
    fn from(value: EntityType) -> (r: u8) {
        value.0
    }
}

impl vstd::std_specs::convert::FromSpecImpl<EntityType> for u8 {
    open spec fn obeys_from_spec() -> bool {
        true
    }

    open spec fn from_spec(v: EntityType) -> u8 {
        v.0
    }
}

/// Privacy level of a scheduled event.
///
/// Wraps the raw wire integer. Raw values the table does not name are carried
/// unchanged, so a service that introduces a new privacy level cannot break
/// decoding.
#[derive(Clone, Copy, Debug, Eq, Hash, PartialEq, Structural)]
pub struct PrivacyLevel(pub u8);

impl PrivacyLevel {
    /// Event is only accessible to guild members.
    pub fn guild_only() -> (r: Self)
        ensures
            r.raw_spec() == 2,
    {
        PrivacyLevel(2)
    }

    /// Create a new privacy level from a dynamic value.
    ///
    /// The provided value isn't validated: a raw value the table does not
    /// name is stored like any other.
    pub fn new(privacy_level: u8) -> (r: Self)
        ensures
            r.raw_spec() == privacy_level,
    {
        PrivacyLevel(privacy_level)
    }

    /// Retrieve the raw value of the privacy level.
    pub fn get(&self) -> (r: u8)
        ensures
            r == self.raw_spec(),
    {
        self.0
    }

    /// Name of the associated constant.
    ///
    /// `None` exactly when the value doesn't have a declared constant.
    pub fn name(self) -> (r: Option<&'static str>)
        ensures
            match r {
                Some(s) => lookup(Self::table_spec(), self.raw_spec()) == Some(s@),
                None => lookup(Self::table_spec(), self.raw_spec()) is None,
            },
    {
        resolve_name(self)
    }

    /// Diagnostic rendering: the declared name beside the raw value when the
    /// table knows it, else the raw value alone.
    pub fn debug_text(self) -> (s: String)
        ensures
            s@ == spec_debug_chars(Self::kind_name_spec(), Self::table_spec(), self.raw_spec()),
    {
        debug_repr(self)
    }
}

impl WireEnum for PrivacyLevel {
    open spec fn table_spec() -> Seq<(Seq<char>, u8)> {
        seq![("GUILD_ONLY"@, 2u8)]
    }

    open spec fn kind_name_spec() -> Seq<char> {
        "PrivacyLevel"@
    }

    open spec fn raw_spec(self) -> u8 {
        self.0
    }

    proof fn table_distinct() {
    }

    proof fn raw_determines(a: Self, b: Self) {
    }

    fn table() -> (t: Vec<(&'static str, u8)>) {
        let t: Vec<(&'static str, u8)> = vec![("GUILD_ONLY", 2)];
        t
    }

    fn kind_name() -> (s: &'static str) {
        "PrivacyLevel"
    }

    fn from_raw(v: u8) -> (r: Self) {
        PrivacyLevel(v)
    }

    fn raw(self) -> (r: u8) {
        self.0
    }
}

impl From<u8> for PrivacyLevel {
    fn from(value: u8) -> (r: Self) {
        PrivacyLevel(value)
    }
}

impl vstd::std_specs::convert::FromSpecImpl<u8> for PrivacyLevel {
    open spec fn obeys_from_spec() -> bool {
        true
    }

    open spec fn from_spec(v: u8) -> PrivacyLevel {
        PrivacyLevel(v)
    }
}

impl From<PrivacyLevel> for u8 {
    fn from(value: PrivacyLevel) -> (r: u8) {
        value.0
    }
}

impl vstd::std_specs::convert::FromSpecImpl<PrivacyLevel> for u8 {
    open spec fn obeys_from_spec() -> bool {
        true
    }

    open spec fn from_spec(v: PrivacyLevel) -> u8 {
        v.0
    }
}

/// Status of a scheduled event.
///
/// Wraps the raw wire integer. Raw values the table does not name are carried
/// unchanged, so a service that introduces a new status cannot break
/// decoding.
#[derive(Clone, Copy, Debug, Eq, Hash, PartialEq, Structural)]
pub struct Status(pub u8);

impl Status {
    /// Event is scheduled.
    ///
    /// With this status, the event can either be made active or cancelled.
    pub fn scheduled() -> (r: Self)
        ensures
            r.raw_spec() == 1,
    {
        Status(1)
    }

    /// Event is active.
    ///
    /// With this status, the event can only be made complete.
    pub fn active() -> (r: Self)
        ensures
            r.raw_spec() == 2,
    {
        Status(2)
    }

    /// Event is complete.
    pub fn completed() -> (r: Self)
        ensures
            r.raw_spec() == 3,
    {
        Status(3)
    }

    /// Event is cancelled.
    pub fn cancelled() -> (r: Self)
        ensures
            r.raw_spec() == 4,
    {
        Status(4)
    }

    /// Create a new status from a dynamic value.
    ///
    /// The provided value isn't validated: a raw value the table does not
    /// name is stored like any other.
    pub fn new(status: u8) -> (r: Self)
        ensures
            r.raw_spec() == status,
    {
        Status(status)
    }

    /// Retrieve the raw value of the status.
    pub fn get(&self) -> (r: u8)
        ensures
            r == self.raw_spec(),
    {
        self.0
    }

    /// Name of the associated constant.
    ///
    /// `None` exactly when the value doesn't have a declared constant.
    pub fn name(self) -> (r: Option<&'static str>)
        ensures
            match r {
                Some(s) => lookup(Self::table_spec(), self.raw_spec()) == Some(s@),
                None => lookup(Self::table_spec(), self.raw_spec()) is None,
            },
    {
        resolve_name(self)
    }

    /// Diagnostic rendering: the declared name beside the raw value when the
    /// table knows it, else the raw value alone.
    pub fn debug_text(self) -> (s: String)
        ensures
            s@ == spec_debug_chars(Self::kind_name_spec(), Self::table_spec(), self.raw_spec()),
    {
        debug_repr(self)
    }
}

impl WireEnum for Status {
    open spec fn table_spec() -> Seq<(Seq<char>, u8)> {
        seq![
            ("SCHEDULED"@, 1u8),
            ("ACTIVE"@, 2u8),
            ("COMPLETED"@, 3u8),
            ("CANCELLED"@, 4u8),
        ]
    }

    open spec fn kind_name_spec() -> Seq<char> {
        "Status"@
    }

    open spec fn raw_spec(self) -> u8 {
        self.0
    }

    proof fn table_distinct() {
    }

    proof fn raw_determines(a: Self, b: Self) {
    }

    fn table() -> (t: Vec<(&'static str, u8)>) {
        let t: Vec<(&'static str, u8)> = vec![
            ("SCHEDULED", 1),
            ("ACTIVE", 2),
            ("COMPLETED", 3),
            ("CANCELLED", 4),
        ];
        t
    }

    fn kind_name() -> (s: &'static str) {
        "Status"
    }

    fn from_raw(v: u8) -> (r: Self) {
        Status(v)
    }

    fn raw(self) -> (r: u8) {
        self.0
    }
}

impl From<u8> for Status {
    fn from(value: u8) -> (r: Self) {
        Status(value)
    }
}

impl vstd::std_specs::convert::FromSpecImpl<u8> for Status {
    open spec fn obeys_from_spec() -> bool {
        true
    }

    open spec fn from_spec(v: u8) -> Status {
        Status(v)
    }
}

impl From<Status> for u8 {
    fn from(value: Status) -> (r: u8) {
        value.0
    }
}

impl vstd::std_specs::convert::FromSpecImpl<Status> for u8 {
    open spec fn obeys_from_spec() -> bool {
        true
    }

    open spec fn from_spec(v: Status) -> u8 {
        v.0
    }
}

/// Metadata associated with a scheduled event.
#[derive(Clone, Debug, Eq, Hash, PartialEq)]
pub struct EntityMetadata {
    /// Physical location of an event held outside the platform.
    pub location: Option<String>,
}

impl Default for EntityMetadata {
    /// Metadata with no location.
    fn default() -> (r: Self)
        ensures
            r.location is None,
    {
        EntityMetadata { location: None }
    }
}

/// Representation of a scheduled event.
///
/// Identifiers, timestamps and image hashes are carried as the plain values
/// the wire supplies — numeric identifiers and text — and are opaque to this
/// model; only the enumeration fields carry behaviour of their own.
#[derive(Clone, Debug, Eq, Hash, PartialEq)]
pub struct GuildScheduledEvent {
    /// ID of the stage or voice channel, if there is one.
    pub channel_id: Option<u64>,
    /// ID of the event's creator, if known.
    pub creator_id: Option<u64>,
    /// Description of the event.
    pub description: Option<String>,
    /// ID of the event's entity.
    pub entity_id: Option<u64>,
    /// Metadata of an entity, if it exists.
    pub entity_metadata: Option<EntityMetadata>,
    /// Type of entity associated with the event.
    pub entity_type: EntityType,
    /// ID of the guild the event takes place in.
    pub guild_id: u64,
    /// ID of the event.
    pub id: u64,
    /// Hash of the event's cover image, if it has one.
    pub image: Option<String>,
    /// Name of the event.
    pub name: String,
    /// Privacy level of the event.
    pub privacy_level: PrivacyLevel,
    /// Scheduled end time of the event, if any.
    pub scheduled_end_time: Option<String>,
    /// Scheduled start time of the event.
    pub scheduled_start_time: String,
    /// Status of the event.
    pub status: Status,
    /// Number of users subscribed to the event.
    pub user_count: Option<u64>,
}

} // verus!
