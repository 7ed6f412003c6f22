//! Typed model of the integer-backed enumeration values that a chat-platform
//! wire protocol carries.
//!
//! Every enumeration field of the protocol is an open set: the remote service
//! may introduce new raw values at any time, so construction from a raw
//! integer is total and never fails, and values without a declared name are
//! first-class. Each concrete type wraps a fixed-width unsigned integer and
//! resolves known raw values to named constants through a compile-time table.

mod activity_type;
mod auto_moderation_event_type;
mod connection_visibility;
mod premium_tier;
mod premium_type;
mod scheduled_event;
mod verification_level;
mod wire;
mod wire_enum;

pub use activity_type::ActivityType;
pub use auto_moderation_event_type::AutoModerationEventType;
pub use connection_visibility::ConnectionVisibility;
pub use premium_tier::PremiumTier;
pub use premium_type::PremiumType;
pub use scheduled_event::EntityMetadata;
pub use scheduled_event::EntityType;
pub use scheduled_event::GuildScheduledEvent;
pub use scheduled_event::PrivacyLevel;
pub use scheduled_event::Status;
pub use verification_level::VerificationLevel;

pub use wire::dec_chars;
pub use wire::decode_raw;
pub use wire::encode_raw;
pub use wire::lemma_dec_chars_injective;
pub use wire::lemma_decode_encode;
pub use wire::spec_decode;
pub use wire_enum::debug_repr;
pub use wire_enum::distinct_values;
pub use wire_enum::lemma_lookup_soundness;
pub use wire_enum::lemma_name_soundness;
pub use wire_enum::lemma_wire_round_trip;
pub use wire_enum::lookup;
pub use wire_enum::resolve_name;
pub use wire_enum::spec_debug_chars;
pub use wire_enum::wire_decode;
pub use wire_enum::wire_encode;
pub use wire_enum::WireEnum;
