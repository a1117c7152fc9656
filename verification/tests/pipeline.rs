//! End-to-end tests of the normalization, decode and resolution
//! pipeline on hand-built payloads.

use interactions::error::{DecodeError, ExpectedShape, ReferenceKind};
use interactions::ids::{ApplicationId, ChannelId, CommandId, GuildId, InteractionId, RoleId, UserId};
use interactions::json::{clone_value, JsonValue};
use interactions::model::{
    ApplicationCommandInteractionDataOptionValue, ApplicationCommandOptionType, InteractionType,
};
use interactions::model::Interaction;
use interactions::normalize::normalize_payload;

fn text(x: &str) -> JsonValue {
    JsonValue::Str(x.to_string())
}

fn obj(pairs: Vec<(&str, JsonValue)>) -> JsonValue {
    let mut entries = Vec::new();
    for (k, v) in pairs {
        entries.push((k.to_string(), v));
    }
    JsonValue::Obj(entries)
}

/// The guild-scoped payload with one user option: `/ping who:@bob`.
fn guild_payload() -> JsonValue {
    obj(vec![
        ("id", text("1")),
        ("application_id", text("2")),
        ("type", JsonValue::UInt(2)),
        ("token", text("abc")),
        ("version", JsonValue::UInt(1)),
        ("guild_id", text("10")),
        ("member", obj(vec![("user", obj(vec![("id", text("5"))]))])),
        (
            "data",
            obj(vec![
                ("id", text("3")),
                ("name", text("ping")),
                (
                    "options",
                    JsonValue::Arr(vec![obj(vec![
                        ("name", text("who")),
                        ("type", JsonValue::UInt(6)),
                        ("value", text("5")),
                    ])]),
                ),
                (
                    "resolved",
                    obj(vec![
                        (
                            "users",
                            obj(vec![(
                                "5",
                                obj(vec![("id", text("5")), ("username", text("bob"))]),
                            )]),
                        ),
                        (
                            "members",
                            obj(vec![("5", obj(vec![("user", obj(vec![("id", text("5"))]))]))]),
                        ),
                    ]),
                ),
            ]),
        ),
    ])
}

#[test]
fn guild_scoped_user_option_decodes() {
    let payload = guild_payload();
    let r = Interaction::decode(&payload).unwrap();
    assert_eq!(r.id, InteractionId(1));
    assert_eq!(r.application_id, ApplicationId(2));
    assert_eq!(r.kind, InteractionType::ApplicationCommand);
    assert_eq!(r.token, "abc");
    assert_eq!(r.version, 1);
    assert_eq!(r.guild_id, Some(GuildId(10)));
    let member = r.member.expect("member present");
    assert_eq!(member.guild_id, Some(GuildId(10)));
    assert_eq!(member.user.id, UserId(5));
    let data = r.data.expect("data present");
    assert_eq!(data.id, CommandId(3));
    assert_eq!(data.name, "ping");
    assert_eq!(data.options.len(), 1);
    let opt = &data.options[0];
    assert_eq!(opt.name, "who");
    assert_eq!(opt.kind, ApplicationCommandOptionType::User);
    match &opt.resolved {
        Some(ApplicationCommandInteractionDataOptionValue::User(u, m)) => {
            assert_eq!(u.id, UserId(5));
            assert_eq!(u.username, Some("bob".to_string()));
            let pm = m.as_ref().expect("member profile paired");
            assert_eq!(pm.user.id, UserId(5));
        }
        other => panic!("unexpected resolved value: {:?}", other),
    }
}

#[test]
fn unresolved_user_reference_fails() {
    // The same payload, but with the referenced user absent from
    // resolved.users.
    let payload = obj(vec![
        ("id", text("1")),
        ("application_id", text("2")),
        ("type", JsonValue::UInt(2)),
        ("token", text("abc")),
        ("version", JsonValue::UInt(1)),
        ("guild_id", text("10")),
        ("member", obj(vec![("user", obj(vec![("id", text("5"))]))])),
        (
            "data",
            obj(vec![
                ("id", text("3")),
                ("name", text("ping")),
                (
                    "options",
                    JsonValue::Arr(vec![obj(vec![
                        ("name", text("who")),
                        ("type", JsonValue::UInt(6)),
                        ("value", text("5")),
                    ])]),
                ),
                (
                    "resolved",
                    obj(vec![
                        ("users", obj(vec![])),
                        (
                            "members",
                            obj(vec![("5", obj(vec![("user", obj(vec![("id", text("5"))]))]))]),
                        ),
                    ]),
                ),
            ]),
        ),
    ]);
    let r = Interaction::decode(&payload);
    assert_eq!(
        r,
        Err(DecodeError::UnresolvedReference(5, ReferenceKind::User))
    );
}

#[test]
fn decode_is_deterministic_on_equal_payloads() {
    let payload = guild_payload();
    let copy = clone_value(&payload);
    assert_eq!(payload, copy);
    let r1 = Interaction::decode(&payload);
    let r2 = Interaction::decode(&copy);
    assert_eq!(r1, r2);
    // Order-sensitive fields come out in input order both times.
    let d1 = r1.unwrap().data.unwrap();
    let d2 = r2.unwrap().data.unwrap();
    assert_eq!(d1.options.len(), d2.options.len());
    assert_eq!(d1.options[0].name, d2.options[0].name);
}

fn minimal_payload(kind_field: JsonValue) -> JsonValue {
    obj(vec![
        ("id", text("1")),
        ("application_id", text("2")),
        ("type", kind_field),
        ("token", text("t")),
        ("version", JsonValue::UInt(1)),
    ])
}

#[test]
fn kind_one_is_ping() {
    let r = Interaction::decode(&minimal_payload(JsonValue::UInt(1))).unwrap();
    assert_eq!(r.kind, InteractionType::Ping);
}

#[test]
fn kind_two_is_application_command() {
    let r = Interaction::decode(&minimal_payload(JsonValue::UInt(2))).unwrap();
    assert_eq!(r.kind, InteractionType::ApplicationCommand);
}

#[test]
fn other_kinds_are_unknown_without_failing() {
    let r = Interaction::decode(&minimal_payload(JsonValue::UInt(7))).unwrap();
    assert_eq!(r.kind, InteractionType::Unknown);
    let r = Interaction::decode(&minimal_payload(JsonValue::UInt(0))).unwrap();
    assert_eq!(r.kind, InteractionType::Unknown);
    let r = Interaction::decode(&minimal_payload(JsonValue::Int(-3))).unwrap();
    assert_eq!(r.kind, InteractionType::Unknown);
}

#[test]
fn non_integer_kind_is_a_type_mismatch() {
    let r = Interaction::decode(&minimal_payload(text("2")));
    assert_eq!(
        r,
        Err(DecodeError::TypeMismatch(
            "type".to_string(),
            ExpectedShape::Integer
        ))
    );
}

#[test]
fn absent_resolved_decodes_to_empty_store() {
    let payload = obj(vec![
        ("id", text("1")),
        ("application_id", text("2")),
        ("type", JsonValue::UInt(2)),
        ("token", text("t")),
        ("version", JsonValue::UInt(1)),
        ("data", obj(vec![("id", text("3")), ("name", text("ping"))])),
    ]);
    let r = Interaction::decode(&payload).unwrap();
    let data = r.data.unwrap();
    assert!(data.resolved.users.is_empty());
    assert!(data.resolved.members.is_empty());
    assert!(data.resolved.roles.is_empty());
    assert!(data.resolved.channels.is_empty());
    assert_eq!(data.options.len(), 0);
}

#[test]
fn missing_token_is_reported() {
    let payload = obj(vec![
        ("id", text("1")),
        ("application_id", text("2")),
        ("type", JsonValue::UInt(1)),
        ("version", JsonValue::UInt(1)),
    ]);
    let r = Interaction::decode(&payload);
    assert_eq!(r, Err(DecodeError::MissingField("token".to_string())));
}

#[test]
fn missing_required_ids_are_reported_in_order() {
    let r = Interaction::decode(&obj(vec![]));
    assert_eq!(r, Err(DecodeError::MissingField("id".to_string())));
    let r = Interaction::decode(&obj(vec![("id", text("1"))]));
    assert_eq!(
        r,
        Err(DecodeError::MissingField("application_id".to_string()))
    );
}

#[test]
fn malformed_id_is_a_snowflake_mismatch() {
    let r = Interaction::decode(&minimal_payload(JsonValue::UInt(1)));
    assert!(r.is_ok());
    for bad in [text("5a"), text(""), text("+5"), text("-5"), JsonValue::Bool(true)] {
        let payload = obj(vec![
            ("id", bad),
            ("application_id", text("2")),
            ("type", JsonValue::UInt(1)),
            ("token", text("t")),
            ("version", JsonValue::UInt(1)),
        ]);
        let r = Interaction::decode(&payload);
        assert_eq!(
            r,
            Err(DecodeError::TypeMismatch(
                "id".to_string(),
                ExpectedShape::Snowflake
            ))
        );
    }
}

#[test]
fn numeric_ids_are_accepted() {
    let payload = obj(vec![
        ("id", JsonValue::UInt(18446744073709551615)),
        ("application_id", text("18446744073709551615")),
        ("type", JsonValue::UInt(1)),
        ("token", text("t")),
        ("version", JsonValue::UInt(1)),
    ]);
    let r = Interaction::decode(&payload).unwrap();
    assert_eq!(r.id, InteractionId(u64::MAX));
    assert_eq!(r.application_id, ApplicationId(u64::MAX));
}

#[test]
fn oversized_id_string_is_rejected() {
    let payload = obj(vec![
        ("id", text("18446744073709551616")),
        ("application_id", text("2")),
        ("type", JsonValue::UInt(1)),
        ("token", text("t")),
        ("version", JsonValue::UInt(1)),
    ]);
    let r = Interaction::decode(&payload);
    assert_eq!(
        r,
        Err(DecodeError::TypeMismatch(
            "id".to_string(),
            ExpectedShape::Snowflake
        ))
    );
}

#[test]
fn version_out_of_range_is_rejected() {
    let payload = obj(vec![
        ("id", text("1")),
        ("application_id", text("2")),
        ("type", JsonValue::UInt(1)),
        ("token", text("t")),
        ("version", JsonValue::UInt(256)),
    ]);
    let r = Interaction::decode(&payload);
    assert_eq!(
        r,
        Err(DecodeError::TypeMismatch(
            "version".to_string(),
            ExpectedShape::UnsignedInteger
        ))
    );
}

#[test]
fn direct_message_payload_carries_user() {
    let payload = obj(vec![
        ("id", text("1")),
        ("application_id", text("2")),
        ("type", JsonValue::UInt(1)),
        ("token", text("t")),
        ("version", JsonValue::UInt(1)),
        ("channel_id", text("9")),
        ("user", obj(vec![("id", text("7")), ("username", text("eve"))])),
    ]);
    let r = Interaction::decode(&payload).unwrap();
    assert_eq!(r.guild_id, None);
    assert_eq!(r.channel_id, Some(ChannelId(9)));
    assert_eq!(r.member, None);
    let user = r.user.unwrap();
    assert_eq!(user.id, UserId(7));
    assert_eq!(user.username, Some("eve".to_string()));
}

#[test]
fn normalization_injects_guild_into_member_and_tables() {
    let payload = obj(vec![
        ("guild_id", text("10")),
        ("member", obj(vec![("user", obj(vec![("id", text("5"))]))])),
        (
            "data",
            obj(vec![(
                "resolved",
                obj(vec![
                    ("roles", obj(vec![("20", obj(vec![("id", text("20"))]))])),
                    ("channels", obj(vec![("30", obj(vec![("id", text("30"))]))])),
                ]),
            )]),
        ),
    ]);
    let n = normalize_payload(&payload);
    let entries = match &n {
        JsonValue::Obj(e) => e,
        other => panic!("not an object: {:?}", other),
    };
    let member = entries.iter().find(|(k, _)| k == "member").unwrap();
    match &member.1 {
        JsonValue::Obj(me) => {
            let g = me.iter().find(|(k, _)| k == "guild_id").unwrap();
            assert_eq!(g.1, JsonValue::UInt(10));
        }
        other => panic!("member not an object: {:?}", other),
    }
    let data = entries.iter().find(|(k, _)| k == "data").unwrap();
    let resolved = match &data.1 {
        JsonValue::Obj(de) => de.iter().find(|(k, _)| k == "resolved").unwrap(),
        other => panic!("data not an object: {:?}", other),
    };
    let tables = match &resolved.1 {
        JsonValue::Obj(re) => re,
        other => panic!("resolved not an object: {:?}", other),
    };
    for table in ["roles", "channels"] {
        let t = tables.iter().find(|(k, _)| k == table).unwrap();
        match &t.1 {
            JsonValue::Obj(te) => {
                for (_, entry) in te {
                    match entry {
                        JsonValue::Obj(ee) => {
                            let g = ee.iter().find(|(k, _)| k == "guild_id").unwrap();
                            assert_eq!(g.1, JsonValue::UInt(10));
                        }
                        other => panic!("entry not an object: {:?}", other),
                    }
                }
            }
            other => panic!("table not an object: {:?}", other),
        }
    }
}

#[test]
fn normalization_without_guild_changes_nothing() {
    let payload = obj(vec![
        ("member", obj(vec![("user", obj(vec![("id", text("5"))]))])),
        (
            "data",
            obj(vec![(
                "resolved",
                obj(vec![("roles", obj(vec![("20", obj(vec![("id", text("20"))]))]))]),
            )]),
        ),
    ]);
    let n = normalize_payload(&payload);
    assert_eq!(n, payload);
}

#[test]
fn numeric_guild_id_does_not_trigger_injection() {
    // Only a string-encoded guild identifier drives the pass; the
    // decoder itself still accepts the numeric one for the field.
    let payload = obj(vec![
        ("id", text("1")),
        ("application_id", text("2")),
        ("type", JsonValue::UInt(1)),
        ("token", text("t")),
        ("version", JsonValue::UInt(1)),
        ("guild_id", JsonValue::UInt(10)),
        ("member", obj(vec![("user", obj(vec![("id", text("5"))]))])),
    ]);
    let n = normalize_payload(&payload);
    assert_eq!(n, payload);
    let r = Interaction::decode(&payload).unwrap();
    assert_eq!(r.guild_id, Some(GuildId(10)));
    assert_eq!(r.member.unwrap().guild_id, None);
}

#[test]
fn roles_and_channels_resolve() {
    let payload = obj(vec![
        ("id", text("1")),
        ("application_id", text("2")),
        ("type", JsonValue::UInt(2)),
        ("token", text("t")),
        ("version", JsonValue::UInt(1)),
        ("guild_id", text("10")),
        (
            "data",
            obj(vec![
                ("id", text("3")),
                ("name", text("mod")),
                (
                    "options",
                    JsonValue::Arr(vec![
                        obj(vec![
                            ("name", text("r")),
                            ("type", JsonValue::UInt(8)),
                            ("value", text("20")),
                        ]),
                        obj(vec![
                            ("name", text("c")),
                            ("type", JsonValue::UInt(7)),
                            ("value", text("30")),
                        ]),
                    ]),
                ),
                (
                    "resolved",
                    obj(vec![
                        (
                            "roles",
                            obj(vec![(
                                "20",
                                obj(vec![("id", text("20")), ("name", text("mods"))]),
                            )]),
                        ),
                        ("channels", obj(vec![("30", obj(vec![("id", text("30"))]))])),
                    ]),
                ),
            ]),
        ),
    ]);
    let r = Interaction::decode(&payload).unwrap();
    let data = r.data.unwrap();
    assert_eq!(data.options.len(), 2);
    match &data.options[0].resolved {
        Some(ApplicationCommandInteractionDataOptionValue::Role(role)) => {
            assert_eq!(role.id, RoleId(20));
            // injected by the normalization pass
            assert_eq!(role.guild_id, Some(GuildId(10)));
            assert_eq!(role.name, Some("mods".to_string()));
        }
        other => panic!("unexpected: {:?}", other),
    }
    match &data.options[1].resolved {
        Some(ApplicationCommandInteractionDataOptionValue::Channel(c)) => {
            assert_eq!(c.id, ChannelId(30));
            assert_eq!(c.guild_id, Some(GuildId(10)));
        }
        other => panic!("unexpected: {:?}", other),
    }
}

#[test]
fn unresolved_role_and_channel_references_fail() {
    for (ty, kind) in [(8u64, ReferenceKind::Role), (7u64, ReferenceKind::Channel)] {
        let payload = obj(vec![
            ("id", text("1")),
            ("application_id", text("2")),
            ("type", JsonValue::UInt(2)),
            ("token", text("t")),
            ("version", JsonValue::UInt(1)),
            (
                "data",
                obj(vec![
                    ("id", text("3")),
                    ("name", text("mod")),
                    (
                        "options",
                        JsonValue::Arr(vec![obj(vec![
                            ("name", text("x")),
                            ("type", JsonValue::UInt(ty)),
                            ("value", text("99")),
                        ])]),
                    ),
                ]),
            ),
        ]);
        let r = Interaction::decode(&payload);
        assert_eq!(r, Err(DecodeError::UnresolvedReference(99, kind)));
    }
}

#[test]
fn primitive_options_resolve_by_declared_kind() {
    let payload = obj(vec![
        ("id", text("1")),
        ("application_id", text("2")),
        ("type", JsonValue::UInt(2)),
        ("token", text("t")),
        ("version", JsonValue::UInt(1)),
        (
            "data",
            obj(vec![
                ("id", text("3")),
                ("name", text("set")),
                (
                    "options",
                    JsonValue::Arr(vec![
                        obj(vec![
                            ("name", text("s")),
                            ("type", JsonValue::UInt(3)),
                            ("value", text("hello")),
                        ]),
                        obj(vec![
                            ("name", text("n")),
                            ("type", JsonValue::UInt(4)),
                            ("value", JsonValue::Int(-3)),
                        ]),
                        obj(vec![
                            ("name", text("m")),
                            ("type", JsonValue::UInt(4)),
                            ("value", JsonValue::UInt(12)),
                        ]),
                        obj(vec![
                            ("name", text("b")),
                            ("type", JsonValue::UInt(5)),
                            ("value", JsonValue::Bool(true)),
                        ]),
                    ]),
                ),
            ]),
        ),
    ]);
    let r = Interaction::decode(&payload).unwrap();
    let data = r.data.unwrap();
    let names: Vec<&str> = data.options.iter().map(|o| o.name.as_str()).collect();
    assert_eq!(names, vec!["s", "n", "m", "b"]);
    assert_eq!(
        data.options[0].resolved,
        Some(ApplicationCommandInteractionDataOptionValue::String(
            "hello".to_string()
        ))
    );
    assert_eq!(
        data.options[1].resolved,
        Some(ApplicationCommandInteractionDataOptionValue::Integer(-3))
    );
    assert_eq!(
        data.options[2].resolved,
        Some(ApplicationCommandInteractionDataOptionValue::Integer(12))
    );
    assert_eq!(
        data.options[3].resolved,
        Some(ApplicationCommandInteractionDataOptionValue::Boolean(true))
    );
}

#[test]
fn mismatched_option_values_fail_per_kind() {
    let cases = vec![
        (3u64, JsonValue::Bool(true), ExpectedShape::Text),
        (4u64, JsonValue::Float, ExpectedShape::Integer),
        (4u64, JsonValue::UInt(u64::MAX), ExpectedShape::Integer),
        (5u64, text("yes"), ExpectedShape::Boolean),
        (6u64, JsonValue::UInt(5), ExpectedShape::Snowflake),
    ];
    for (ty, value, shape) in cases {
        let payload = obj(vec![
            ("id", text("1")),
            ("application_id", text("2")),
            ("type", JsonValue::UInt(2)),
            ("token", text("t")),
            ("version", JsonValue::UInt(1)),
            (
                "data",
                obj(vec![
                    ("id", text("3")),
                    ("name", text("set")),
                    (
                        "options",
                        JsonValue::Arr(vec![obj(vec![
                            ("name", text("arg")),
                            ("type", JsonValue::UInt(ty)),
                            ("value", value),
                        ])]),
                    ),
                ]),
            ),
        ]);
        let r = Interaction::decode(&payload);
        assert_eq!(
            r,
            Err(DecodeError::TypeMismatch("arg".to_string(), shape))
        );
    }
}

#[test]
fn subcommands_nest_and_share_the_store() {
    let payload = obj(vec![
        ("id", text("1")),
        ("application_id", text("2")),
        ("type", JsonValue::UInt(2)),
        ("token", text("t")),
        ("version", JsonValue::UInt(1)),
        (
            "data",
            obj(vec![
                ("id", text("3")),
                ("name", text("admin")),
                (
                    "options",
                    JsonValue::Arr(vec![obj(vec![
                        ("name", text("group")),
                        ("type", JsonValue::UInt(2)),
                        (
                            "options",
                            JsonValue::Arr(vec![obj(vec![
                                ("name", text("kick")),
                                ("type", JsonValue::UInt(1)),
                                (
                                    "options",
                                    JsonValue::Arr(vec![obj(vec![
                                        ("name", text("who")),
                                        ("type", JsonValue::UInt(6)),
                                        ("value", text("5")),
                                    ])]),
                                ),
                            ])]),
                        ),
                    ])]),
                ),
                (
                    "resolved",
                    obj(vec![(
                        "users",
                        obj(vec![("5", obj(vec![("id", text("5"))]))]),
                    )]),
                ),
            ]),
        ),
    ]);
    let r = Interaction::decode(&payload).unwrap();
    let data = r.data.unwrap();
    let group = &data.options[0];
    assert_eq!(group.kind, ApplicationCommandOptionType::SubCommandGroup);
    assert_eq!(group.resolved, None);
    assert_eq!(group.value, None);
    let sub = &group.options[0];
    assert_eq!(sub.kind, ApplicationCommandOptionType::SubCommand);
    let leaf = &sub.options[0];
    match &leaf.resolved {
        Some(ApplicationCommandInteractionDataOptionValue::User(u, m)) => {
            assert_eq!(u.id, UserId(5));
            assert!(m.is_none());
        }
        other => panic!("unexpected: {:?}", other),
    }
}

#[test]
fn unknown_option_kind_keeps_raw_value_unresolved() {
    let payload = obj(vec![
        ("id", text("1")),
        ("application_id", text("2")),
        ("type", JsonValue::UInt(2)),
        ("token", text("t")),
        ("version", JsonValue::UInt(1)),
        (
            "data",
            obj(vec![
                ("id", text("3")),
                ("name", text("new")),
                (
                    "options",
                    JsonValue::Arr(vec![obj(vec![
                        ("name", text("future")),
                        ("type", JsonValue::UInt(99)),
                        ("value", text("x")),
                    ])]),
                ),
            ]),
        ),
    ]);
    let r = Interaction::decode(&payload).unwrap();
    let data = r.data.unwrap();
    let opt = &data.options[0];
    assert_eq!(opt.kind, ApplicationCommandOptionType::Unknown);
    assert_eq!(opt.value, Some(JsonValue::Str("x".to_string())));
    assert_eq!(opt.resolved, None);
}

#[test]
fn member_entry_without_user_fails() {
    let payload = obj(vec![
        ("id", text("1")),
        ("application_id", text("2")),
        ("type", JsonValue::UInt(2)),
        ("token", text("t")),
        ("version", JsonValue::UInt(1)),
        (
            "data",
            obj(vec![
                ("id", text("3")),
                ("name", text("x")),
                (
                    "resolved",
                    obj(vec![("members", obj(vec![("5", obj(vec![]))]))]),
                ),
            ]),
        ),
    ]);
    let r = Interaction::decode(&payload);
    assert_eq!(r, Err(DecodeError::MissingField("user".to_string())));
}

#[test]
fn reference_kind_without_value_stays_unresolved() {
    // Resolution only runs when a raw value is present.
    let payload = obj(vec![
        ("id", text("1")),
        ("application_id", text("2")),
        ("type", JsonValue::UInt(2)),
        ("token", text("t")),
        ("version", JsonValue::UInt(1)),
        (
            "data",
            obj(vec![
                ("id", text("3")),
                ("name", text("x")),
                (
                    "options",
                    JsonValue::Arr(vec![obj(vec![
                        ("name", text("who")),
                        ("type", JsonValue::UInt(6)),
                    ])]),
                ),
            ]),
        ),
    ]);
    let r = Interaction::decode(&payload).unwrap();
    let data = r.data.unwrap();
    assert_eq!(data.options[0].kind, ApplicationCommandOptionType::User);
    assert_eq!(data.options[0].value, None);
    assert_eq!(data.options[0].resolved, None);
}

#[test]
fn malformed_containers_are_shape_mismatches() {
    let r = Interaction::decode(&text("nope"));
    assert_eq!(
        r,
        Err(DecodeError::TypeMismatch(
            "payload".to_string(),
            ExpectedShape::Object
        ))
    );
    let base = |data: JsonValue| {
        obj(vec![
            ("id", text("1")),
            ("application_id", text("2")),
            ("type", JsonValue::UInt(2)),
            ("token", text("t")),
            ("version", JsonValue::UInt(1)),
            ("data", data),
        ])
    };
    let r = Interaction::decode(&base(text("nope")));
    assert_eq!(
        r,
        Err(DecodeError::TypeMismatch(
            "data".to_string(),
            ExpectedShape::Object
        ))
    );
    let r = Interaction::decode(&base(obj(vec![
        ("id", text("3")),
        ("name", text("x")),
        ("options", text("nope")),
    ])));
    assert_eq!(
        r,
        Err(DecodeError::TypeMismatch(
            "options".to_string(),
            ExpectedShape::Array
        ))
    );
    let r = Interaction::decode(&base(obj(vec![
        ("id", text("3")),
        ("name", text("x")),
        ("options", JsonValue::Arr(vec![text("nope")])),
    ])));
    assert_eq!(
        r,
        Err(DecodeError::TypeMismatch(
            "options".to_string(),
            ExpectedShape::Object
        ))
    );
    let r = Interaction::decode(&base(obj(vec![
        ("id", text("3")),
        ("name", text("x")),
        ("resolved", JsonValue::Arr(vec![])),
    ])));
    assert_eq!(
        r,
        Err(DecodeError::TypeMismatch(
            "resolved".to_string(),
            ExpectedShape::Object
        ))
    );
}

#[test]
fn later_duplicate_table_entries_override_earlier_ones() {
    let payload = obj(vec![
        ("id", text("1")),
        ("application_id", text("2")),
        ("type", JsonValue::UInt(2)),
        ("token", text("t")),
        ("version", JsonValue::UInt(1)),
        (
            "data",
            obj(vec![
                ("id", text("3")),
                ("name", text("x")),
                (
                    "resolved",
                    obj(vec![(
                        "users",
                        obj(vec![
                            ("5", obj(vec![("id", text("5")), ("username", text("old"))])),
                            ("5", obj(vec![("id", text("5")), ("username", text("new"))])),
                        ]),
                    )]),
                ),
            ]),
        ),
    ]);
    let r = Interaction::decode(&payload).unwrap();
    let data = r.data.unwrap();
    let u = data.resolved.users.get(5).unwrap();
    assert_eq!(u.username, Some("new".to_string()));
    assert!(data.resolved.users.get(6).is_none());
}
