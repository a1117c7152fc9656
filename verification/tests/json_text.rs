//! An end-to-end test that starts from JSON text: the payload is
//! parsed with serde_json, converted into the crate's value model,
//! and decoded.

use interactions::ids::{GuildId, UserId};
use interactions::json::JsonValue;
use interactions::model::{
    ApplicationCommandInteractionDataOptionValue, Interaction, InteractionType,
};

/// Convert a parsed serde_json tree into the crate's value model.
fn convert(v: &serde_json::Value) -> JsonValue {
    match v {
        serde_json::Value::Null => JsonValue::Null,
        serde_json::Value::Bool(b) => JsonValue::Bool(*b),
        serde_json::Value::Number(n) => {
            if let Some(u) = n.as_u64() {
                JsonValue::UInt(u)
            } else if let Some(i) = n.as_i64() {
                JsonValue::Int(i)
            } else {
                JsonValue::Float
            }
        }
        serde_json::Value::String(s) => JsonValue::Str(s.clone()),
        serde_json::Value::Array(items) => {
            JsonValue::Arr(items.iter().map(convert).collect())
        }
        serde_json::Value::Object(entries) => JsonValue::Obj(
            entries
                .iter()
                .map(|(k, v)| (k.clone(), convert(v)))
                .collect(),
        ),
    }
}

#[test]
fn json_text_payload_decodes() {
    let payload_text = "{\"id\":\"1\",\"application_id\":\"2\",\"type\":2,\"token\":\"abc\",\
        \"version\":1,\"guild_id\":\"10\",\"member\":{\"user\":{\"id\":\"5\"}},\
        \"data\":{\"id\":\"3\",\"name\":\"ping\",\
        \"options\":[{\"name\":\"who\",\"type\":6,\"value\":\"5\"}],\
        \"resolved\":{\"users\":{\"5\":{\"id\":\"5\",\"username\":\"bob\"}},\
        \"members\":{\"5\":{\"user\":{\"id\":\"5\"}}}}}}";
    let parsed: serde_json::Value = serde_json::from_str(payload_text).unwrap();
    let payload = convert(&parsed);
    let r = Interaction::decode(&payload).unwrap();
    assert_eq!(r.kind, InteractionType::ApplicationCommand);
    assert_eq!(r.guild_id, Some(GuildId(10)));
    assert_eq!(r.member.unwrap().guild_id, Some(GuildId(10)));
    let data = r.data.unwrap();
    match &data.options[0].resolved {
        Some(ApplicationCommandInteractionDataOptionValue::User(u, m)) => {
            assert_eq!(u.id, UserId(5));
            assert_eq!(u.username, Some("bob".to_string()));
            assert!(m.is_some());
        }
        other => panic!("unexpected resolved value: {:?}", other),
    }
}
