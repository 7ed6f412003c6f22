//! Behavioural properties of the enumeration pattern, checked on concrete
//! values: round trips, name resolution, equality, defaults, ordering and
//! diagnostic rendering.

use std::collections::hash_map::DefaultHasher;
use std::hash::{Hash, Hasher};
use wire_model::{
    decode_raw, encode_raw, wire_decode, wire_encode, ActivityType, PremiumTier, PremiumType,
    VerificationLevel,
};

fn hash_of<T: Hash>(value: &T) -> u64 {
    let mut hasher = DefaultHasher::new();
    value.hash(&mut hasher);
    hasher.finish()
}

#[test]
fn raw_round_trip_every_value() {
    for v in 0..=255u8 {
        assert_eq!(ActivityType::new(v).get(), v);
        assert_eq!(PremiumTier::new(v).get(), v);
        assert_eq!(u8::from(ActivityType::from(v)), v);
    }
}

#[test]
fn name_matches_declared_table() {
    assert_eq!(ActivityType::new(0).name(), Some("PLAYING"));
    assert_eq!(ActivityType::new(1).name(), Some("STREAMING"));
    assert_eq!(ActivityType::new(2).name(), Some("LISTENING"));
    assert_eq!(ActivityType::new(3).name(), Some("WATCHING"));
    assert_eq!(ActivityType::new(4).name(), Some("CUSTOM"));
    assert_eq!(ActivityType::new(5).name(), Some("COMPETING"));
    for v in 6..=255u8 {
        assert_eq!(ActivityType::new(v).name(), None);
    }
    assert_eq!(PremiumType::none().name(), Some("NONE"));
    assert_eq!(PremiumType::nitro_classic().name(), Some("NITRO_CLASSIC"));
    assert_eq!(PremiumType::nitro().name(), Some("NITRO"));
    assert_eq!(PremiumType::nitro_basic().name(), Some("NITRO_BASIC"));
    assert_eq!(PremiumType::new(4).name(), None);
}

#[test]
fn equality_follows_raw_value() {
    for v1 in 0..=20u8 {
        for v2 in 0..=20u8 {
            assert_eq!(
                ActivityType::new(v1) == ActivityType::new(v2),
                v1 == v2
            );
        }
    }
}

#[test]
fn defaults_are_the_nominated_constants() {
    assert_eq!(ActivityType::default(), ActivityType::playing());
    assert_eq!(ActivityType::default().get(), 0);
    assert_eq!(PremiumTier::default(), PremiumTier::none());
    assert_eq!(PremiumTier::default().get(), 0);
}

#[test]
fn serialization_round_trip_every_value() {
    for v in 0..=255u8 {
        let kind = ActivityType::new(v);
        let text = wire_encode(kind);
        assert_eq!(text, v.to_string());
        assert_eq!(wire_decode::<ActivityType>(&text), Some(kind));
    }
}

#[test]
fn scenario_activity_listening() {
    let kind = ActivityType::new(2);
    assert_eq!(kind.name(), Some("LISTENING"));
    assert_eq!(wire_encode(kind), "2");
    assert_eq!(wire_decode::<ActivityType>("2"), Some(kind));
}

#[test]
fn scenario_premium_tier_unknown_value() {
    let kind = PremiumTier::new(250);
    assert_eq!(kind.name(), None);
    assert_eq!(wire_encode(kind), "250");
    assert_eq!(wire_decode::<PremiumTier>("250"), Some(kind));
}

#[test]
fn scenario_verification_level_ordering() {
    let three = VerificationLevel::new(3);
    assert!(three < VerificationLevel::new(4));
    assert!(three > VerificationLevel::new(2));
}

#[test]
fn scenario_constant_and_raw_paths_agree() {
    let by_constant = ActivityType::listening();
    let by_raw = ActivityType::new(2);
    assert_eq!(by_constant, by_raw);
    assert_eq!(hash_of(&by_constant), hash_of(&by_raw));
    assert_eq!(by_constant.debug_text(), by_raw.debug_text());
    assert_eq!(format!("{by_constant:?}"), format!("{by_raw:?}"));
}

#[test]
fn debug_text_shape() {
    assert_eq!(
        ActivityType::new(2).debug_text(),
        "ActivityType { name: \"LISTENING\", value: 2 }"
    );
    assert_eq!(PremiumTier::new(250).debug_text(), "PremiumTier(250)");
    assert_eq!(
        VerificationLevel::very_high().debug_text(),
        "VerificationLevel { name: \"VERY_HIGH\", value: 4 }"
    );
}

#[test]
fn decode_never_fails_on_width_range() {
    for v in 0..=255u8 {
        assert_eq!(decode_raw(&v.to_string()), Some(v));
        assert_eq!(encode_raw(v).len(), v.to_string().len());
    }
}
