//! The uniform behaviour of every enumeration type: total construction,
//! raw-value access, conversions, and the wire codec.

use wire_model::{
    decode_raw, encode_raw, wire_decode, wire_encode, ActivityType, AutoModerationEventType,
    ConnectionVisibility, EntityMetadata, EntityType, GuildScheduledEvent, PremiumTier,
    PremiumType, PrivacyLevel, Status, VerificationLevel,
};

#[test]
fn values() {
    assert_eq!(1, u8::from(AutoModerationEventType::message_send()));
    assert_eq!(250, u8::from(AutoModerationEventType::new(250)));
}

#[test]
fn activity_type_variants() {
    let map: Vec<(ActivityType, u8)> = vec![
        (ActivityType::playing(), 0),
        (ActivityType::streaming(), 1),
        (ActivityType::listening(), 2),
        (ActivityType::watching(), 3),
        (ActivityType::custom(), 4),
        (ActivityType::competing(), 5),
    ];
    for (kind, num) in map {
        assert_eq!(wire_encode(kind), num.to_string());
        assert_eq!(Some(kind), wire_decode(&num.to_string()));
        assert_eq!(kind, ActivityType::from(num));
        assert_eq!(num, kind.get());
    }
}

#[test]
fn premium_tier_variants() {
    let map: Vec<(PremiumTier, u8)> = vec![
        (PremiumTier::none(), 0),
        (PremiumTier::tier_1(), 1),
        (PremiumTier::tier_2(), 2),
        (PremiumTier::tier_3(), 3),
    ];
    for (kind, num) in map {
        assert_eq!(wire_encode(kind), num.to_string());
        assert_eq!(Some(kind), wire_decode(&num.to_string()));
        assert_eq!(kind, PremiumTier::from(num));
        assert_eq!(num, kind.get());
    }
}

#[test]
fn verification_level_variants() {
    let map: Vec<(VerificationLevel, u8)> = vec![
        (VerificationLevel::none(), 0),
        (VerificationLevel::low(), 1),
        (VerificationLevel::medium(), 2),
        (VerificationLevel::high(), 3),
        (VerificationLevel::very_high(), 4),
    ];
    for (kind, num) in map {
        assert_eq!(wire_encode(kind), num.to_string());
        assert_eq!(Some(kind), wire_decode(&num.to_string()));
        assert_eq!(kind, VerificationLevel::from(num));
        assert_eq!(num, kind.get());
    }
}

#[test]
fn connection_visibility_variants() {
    let map: Vec<(ConnectionVisibility, u8)> = vec![
        (ConnectionVisibility::none(), 0),
        (ConnectionVisibility::everyone(), 1),
    ];
    for (kind, num) in map {
        assert_eq!(wire_encode(kind), num.to_string());
        assert_eq!(Some(kind), wire_decode(&num.to_string()));
        assert_eq!(kind, ConnectionVisibility::from(num));
        assert_eq!(num, kind.get());
    }
}

#[test]
fn premium_type_variants() {
    let map: Vec<(PremiumType, u8)> = vec![
        (PremiumType::none(), 0),
        (PremiumType::nitro_classic(), 1),
        (PremiumType::nitro(), 2),
        (PremiumType::nitro_basic(), 3),
    ];
    for (kind, num) in map {
        assert_eq!(wire_encode(kind), num.to_string());
        assert_eq!(Some(kind), wire_decode(&num.to_string()));
        assert_eq!(kind, PremiumType::from(num));
        assert_eq!(num, kind.get());
    }
}

#[test]
fn scheduled_event() {
    let value = GuildScheduledEvent {
        channel_id: Some(1),
        creator_id: None,
        description: Some("this is a dance party for garfield lovers".to_string()),
        entity_id: Some(2),
        entity_metadata: None,
        entity_type: EntityType::stage_instance(),
        guild_id: 3,
        id: 4,
        image: Some("1acefe340fafb4ecefae407f3abdb323".to_string()),
        name: "garfield dance party".to_string(),
        privacy_level: PrivacyLevel::guild_only(),
        scheduled_end_time: None,
        scheduled_start_time: "2022-01-01T00:00:00.000000+00:00".to_string(),
        status: Status::completed(),
        user_count: Some(1),
    };

    assert_eq!(value.channel_id, Some(1));
    assert_eq!(
        value.description.as_deref(),
        Some("this is a dance party for garfield lovers")
    );
    assert_eq!(value.entity_id, Some(2));
    assert_eq!(value.entity_type.get(), 1);
    assert_eq!(wire_encode(value.entity_type), "1");
    assert_eq!(value.guild_id, 3);
    assert_eq!(value.id, 4);
    assert_eq!(value.name, "garfield dance party");
    assert_eq!(value.privacy_level.get(), 2);
    assert_eq!(wire_encode(value.privacy_level), "2");
    assert_eq!(
        value.scheduled_start_time,
        "2022-01-01T00:00:00.000000+00:00"
    );
    assert_eq!(value.status.get(), 3);
    assert_eq!(wire_encode(value.status), "3");
    assert_eq!(value.user_count, Some(1));
    assert_eq!(value.clone(), value);
}

#[test]
fn entity_metadata_default() {
    let metadata = EntityMetadata::default();
    assert_eq!(metadata.location, None);
}

#[test]
fn codec_exact_numerals() {
    assert_eq!(encode_raw(0), "0");
    assert_eq!(encode_raw(7), "7");
    assert_eq!(encode_raw(10), "10");
    assert_eq!(encode_raw(99), "99");
    assert_eq!(encode_raw(100), "100");
    assert_eq!(encode_raw(255), "255");
}

#[test]
fn codec_round_trip_every_raw_value() {
    for v in 0..=255u8 {
        assert_eq!(decode_raw(&encode_raw(v)), Some(v));
    }
}

#[test]
fn codec_rejects_non_numerals() {
    assert_eq!(decode_raw(""), None);
    assert_eq!(decode_raw("a"), None);
    assert_eq!(decode_raw("-1"), None);
    assert_eq!(decode_raw("007"), None);
    assert_eq!(decode_raw("07"), None);
    assert_eq!(decode_raw("256"), None);
    assert_eq!(decode_raw("999"), None);
    assert_eq!(decode_raw("1000"), None);
    assert_eq!(decode_raw("12a"), None);
    assert_eq!(decode_raw(" 2"), None);
    assert_eq!(decode_raw("2 "), None);
    assert_eq!(decode_raw("2.0"), None);
}
