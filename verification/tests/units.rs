//! Unit tests of the identifier types, the wire enumerations, the
//! response flags and the decimal identifier parser.

use interactions::catalog::{
    default_permission_value, ApplicationCommand, ApplicationCommandOption,
    ApplicationCommandOptionChoice, ApplicationCommandPermission,
    ApplicationCommandPermissionData, ApplicationCommandPermissionType,
    InteractionApplicationCommandCallbackDataFlags, InteractionResponseType, MessageInteraction,
};
use interactions::error::{DecodeError, ExpectedShape};
use interactions::ids::{ApplicationId, CommandId, CommandPermissionId, GuildId, InteractionId, RoleId, UserId};
use interactions::json::{parse_u64, JsonValue};
use interactions::model::{ApplicationCommandOptionType, InteractionType, User};

#[test]
fn permission_id_converts_both_ways() {
    let id = CommandPermissionId(42);
    assert_eq!(id.to_user_id(), UserId(42));
    assert_eq!(id.to_role_id(), RoleId(42));
    assert_eq!(CommandPermissionId::from(RoleId(7)), CommandPermissionId(7));
    assert_eq!(CommandPermissionId::from(UserId(8)), CommandPermissionId(8));
    assert_eq!(RoleId::from(CommandPermissionId(9)), RoleId(9));
    assert_eq!(UserId::from(CommandPermissionId(3)), UserId(3));
}

#[test]
fn interaction_type_numbers_round_trip() {
    assert_eq!(InteractionType::from_number(1), InteractionType::Ping);
    assert_eq!(
        InteractionType::from_number(2),
        InteractionType::ApplicationCommand
    );
    assert_eq!(InteractionType::from_number(3), InteractionType::Unknown);
    assert_eq!(InteractionType::Ping.number(), 1);
    assert_eq!(InteractionType::ApplicationCommand.number(), 2);
    assert_eq!(InteractionType::Unknown.number(), 255);
}

#[test]
fn option_type_numbers_cover_all_kinds() {
    let pairs = [
        (1u64, ApplicationCommandOptionType::SubCommand),
        (2, ApplicationCommandOptionType::SubCommandGroup),
        (3, ApplicationCommandOptionType::String),
        (4, ApplicationCommandOptionType::Integer),
        (5, ApplicationCommandOptionType::Boolean),
        (6, ApplicationCommandOptionType::User),
        (7, ApplicationCommandOptionType::Channel),
        (8, ApplicationCommandOptionType::Role),
        (9, ApplicationCommandOptionType::Unknown),
        (0, ApplicationCommandOptionType::Unknown),
    ];
    for (n, kind) in pairs {
        assert_eq!(ApplicationCommandOptionType::from_number(n), kind);
    }
    assert_eq!(ApplicationCommandOptionType::SubCommand.number(), 1);
    assert_eq!(ApplicationCommandOptionType::Role.number(), 8);
    assert_eq!(ApplicationCommandOptionType::Unknown.number(), 255);
}

#[test]
fn permission_type_numbers() {
    assert_eq!(
        ApplicationCommandPermissionType::from_number(1),
        ApplicationCommandPermissionType::Role
    );
    assert_eq!(
        ApplicationCommandPermissionType::from_number(2),
        ApplicationCommandPermissionType::User
    );
    assert_eq!(
        ApplicationCommandPermissionType::from_number(77),
        ApplicationCommandPermissionType::Unknown
    );
    assert_eq!(ApplicationCommandPermissionType::Role.number(), 1);
    assert_eq!(ApplicationCommandPermissionType::User.number(), 2);
    assert_eq!(ApplicationCommandPermissionType::Unknown.number(), 255);
}

#[test]
fn response_type_numbers() {
    assert_eq!(InteractionResponseType::Pong.number(), 1);
    assert_eq!(InteractionResponseType::ChannelMessageWithSource.number(), 4);
    assert_eq!(
        InteractionResponseType::DeferredChannelMessageWithSource.number(),
        5
    );
}

#[test]
fn callback_flags_behave_as_a_bit_set() {
    let empty = InteractionApplicationCommandCallbackDataFlags::empty();
    let eph = InteractionApplicationCommandCallbackDataFlags::ephemeral();
    assert_eq!(empty.bits(), 0);
    assert_eq!(eph.bits(), 64);
    assert!(!empty.contains(eph));
    assert!(eph.contains(eph));
    assert!(eph.contains(empty));
    let combined = empty.insert(eph);
    assert_eq!(combined, eph);
    let removed = combined.remove(eph);
    assert_eq!(removed, empty);
    let raw = InteractionApplicationCommandCallbackDataFlags::from_bits(64);
    assert_eq!(raw, eph);
}

#[test]
fn default_permission_defaults_to_true() {
    assert!(default_permission_value());
}

#[test]
fn decimal_identifier_parsing_edges() {
    assert_eq!(parse_u64("0"), Some(0));
    assert_eq!(parse_u64("007"), Some(7));
    assert_eq!(parse_u64("18446744073709551615"), Some(u64::MAX));
    assert_eq!(parse_u64("18446744073709551616"), None);
    assert_eq!(parse_u64("99999999999999999999999"), None);
    assert_eq!(parse_u64(""), None);
    assert_eq!(parse_u64("+5"), None);
    assert_eq!(parse_u64("-5"), None);
    assert_eq!(parse_u64("12a"), None);
    assert_eq!(parse_u64(" 12"), None);
}

#[test]
fn schema_types_assemble() {
    let command = ApplicationCommand {
        id: CommandId(3),
        application_id: ApplicationId(2),
        name: "echo".to_string(),
        description: "What is said is echoed".to_string(),
        options: vec![ApplicationCommandOption {
            kind: ApplicationCommandOptionType::String,
            name: "to_say".to_string(),
            description: "What will be echoed".to_string(),
            required: true,
            choices: vec![ApplicationCommandOptionChoice {
                name: "greeting".to_string(),
                value: JsonValue::Str("hi".to_string()),
            }],
            options: vec![],
        }],
        default_permission: default_permission_value(),
    };
    assert!(command.default_permission);
    assert_eq!(command.options[0].choices.len(), 1);

    let permission = ApplicationCommandPermission {
        id: CommandId(3),
        application_id: ApplicationId(2),
        guild_id: GuildId(10),
        permissions: vec![ApplicationCommandPermissionData {
            id: CommandPermissionId(42),
            kind: ApplicationCommandPermissionType::User,
            permission: true,
        }],
    };
    assert_eq!(permission.permissions[0].id.to_user_id(), UserId(42));

    let message = MessageInteraction {
        id: InteractionId(1),
        kind: InteractionType::ApplicationCommand,
        name: "echo".to_string(),
        user: User { id: UserId(5), username: None },
    };
    assert_eq!(message.kind.number(), 2);
}

#[test]
fn errors_describe_themselves() {
    let missing = DecodeError::MissingField("token".to_string());
    assert!(missing.describe().contains("token"));
    let mismatch = DecodeError::TypeMismatch("version".to_string(), ExpectedShape::Integer);
    assert!(mismatch.describe().contains("version"));
    let unresolved = DecodeError::UnresolvedReference(5, interactions::error::ReferenceKind::Role);
    assert!(unresolved.describe().contains("resolved"));
}
