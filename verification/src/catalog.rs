//! The static schema types of registered application commands:
//! definitions a command builder produces and the permission model,
//! shared with the decoding pipeline for completeness.

use vstd::prelude::*;
use crate::ids::{ApplicationId, CommandId, CommandPermissionId, GuildId, InteractionId};
use crate::json::JsonValue;
use crate::model::{ApplicationCommandOptionType, InteractionType, User};

verus! {

/// The default of [`ApplicationCommand::default_permission`] when a
/// command definition does not carry the field.
pub fn default_permission_value() -> (r: bool)
    ensures
        r == true,
{
    true
}

/// One value a user can pick for an option.
#[derive(Debug, PartialEq)]
pub struct ApplicationCommandOptionChoice {
    pub name: String,
    pub value: JsonValue,
}

/// One parameter of a registered command definition.
#[derive(Debug, PartialEq)]
pub struct ApplicationCommandOption {
    pub kind: ApplicationCommandOptionType,
    pub name: String,
    pub description: String,
    pub required: bool,
    pub choices: Vec<ApplicationCommandOptionChoice>,
    pub options: Vec<ApplicationCommandOption>,
}

/// The base command model that belongs to an application.
#[derive(Debug, PartialEq)]
pub struct ApplicationCommand {
    pub id: CommandId,
    pub application_id: ApplicationId,
    pub name: String,
    pub description: String,
    pub options: Vec<ApplicationCommandOption>,
    pub default_permission: bool,
}

/// The kind of subject a command permission applies to.
#[derive(Clone, Copy, Debug, Hash, Eq, PartialEq, Structural)]
pub enum ApplicationCommandPermissionType {
    Role,
    User,
    Unknown,
}

/// The permission-subject kind denoted by a wire discriminant.
pub open spec fn spec_permission_type_of(n: u64) -> ApplicationCommandPermissionType {
    if n == 1 {
        ApplicationCommandPermissionType::Role
    } else if n == 2 {
        ApplicationCommandPermissionType::User
    } else {
        ApplicationCommandPermissionType::Unknown
    }
}

impl ApplicationCommandPermissionType {
    /// Decode a wire discriminant; unrecognized values are `Unknown`.
    pub fn from_number(n: u64) -> (r: Self)
        ensures
            r == spec_permission_type_of(n),
    {
        if n == 1 {
            ApplicationCommandPermissionType::Role
        } else if n == 2 {
            ApplicationCommandPermissionType::User
        } else {
            ApplicationCommandPermissionType::Unknown
        }
    }

    /// The wire discriminant; `Unknown` maps to the sentinel `255`.
    pub fn number(self) -> (n: u8)
        ensures
            self == ApplicationCommandPermissionType::Role ==> n == 1,
            self == ApplicationCommandPermissionType::User ==> n == 2,
            self == ApplicationCommandPermissionType::Unknown ==> n == 255,
    {
        match self {
            ApplicationCommandPermissionType::Role => 1,
            ApplicationCommandPermissionType::User => 2,
            ApplicationCommandPermissionType::Unknown => 255,
        }
    }
}

/// One permission entry of a command in a guild.
#[derive(Debug, PartialEq)]
pub struct ApplicationCommandPermissionData {
    /// A role or user identifier, depending on `kind`.
    pub id: CommandPermissionId,
    pub kind: ApplicationCommandPermissionType,
    pub permission: bool,
}

/// The permissions of a command in a guild.
#[derive(Debug, PartialEq)]
pub struct ApplicationCommandPermission {
    pub id: CommandId,
    pub application_id: ApplicationId,
    pub guild_id: GuildId,
    pub permissions: Vec<ApplicationCommandPermissionData>,
}

/// The available response types for an interaction response.
#[derive(Clone, Copy, Debug, Hash, Eq, PartialEq, Structural)]
pub enum InteractionResponseType {
    Pong,
    ChannelMessageWithSource,
    DeferredChannelMessageWithSource,
}

impl InteractionResponseType {
    /// The wire discriminant of this response type.
    pub fn number(self) -> (n: u8)
        ensures
            self == InteractionResponseType::Pong ==> n == 1,
            self == InteractionResponseType::ChannelMessageWithSource ==> n == 4,
            self == InteractionResponseType::DeferredChannelMessageWithSource ==> n == 5,
    {
        match self {
            InteractionResponseType::Pong => 1,
            InteractionResponseType::ChannelMessageWithSource => 4,
            InteractionResponseType::DeferredChannelMessageWithSource => 5,
        }
    }
}

/// The flags of an interaction response callback, a set of bits.
#[derive(Clone, Copy, Debug, Eq, PartialEq, Structural)]
pub struct InteractionApplicationCommandCallbackDataFlags {
    bits: u64,
}

impl InteractionApplicationCommandCallbackDataFlags {
    /// The bit marking a response as ephemeral: visible only to the
    /// invoking user, and quickly deleted.
    pub open spec fn ephemeral_bit() -> u64 {
        64
    }

    /// No flag set.
    pub fn empty() -> (r: Self)
        ensures
            r.bits() == 0,
    {
        InteractionApplicationCommandCallbackDataFlags { bits: 0 }
    }

    /// The flag set holding exactly the ephemeral bit.
    pub fn ephemeral() -> (r: Self)
        ensures
            r.bits() == Self::ephemeral_bit(),
    {
        InteractionApplicationCommandCallbackDataFlags { bits: 64 }
    }

    /// A flag set from raw bits.
    pub fn from_bits(bits: u64) -> (r: Self)
        ensures
            r.bits() == bits,
    {
        InteractionApplicationCommandCallbackDataFlags { bits }
    }

    /// The raw bits, for use in contracts.
    pub closed spec fn spec_bits(&self) -> u64 {
        self.bits
    }

    /// The raw bits of this flag set.
    #[verifier::when_used_as_spec(spec_bits)]
    pub fn bits(&self) -> (r: u64)
        ensures
            r == self.spec_bits(),
    {
        self.bits
    }

    /// Whether every bit of `other` is set in `self`.
    pub fn contains(&self, other: Self) -> (r: bool)
        ensures
            r == (self.bits() & other.bits() == other.bits()),
    {
        self.bits & other.bits == other.bits
    }

    /// The union of the two flag sets.
    pub fn insert(&self, other: Self) -> (r: Self)
        ensures
            r.bits() == (self.bits() | other.bits()),
    {
        InteractionApplicationCommandCallbackDataFlags { bits: self.bits | other.bits }
    }

    /// The flags of `self` with those of `other` removed.
    pub fn remove(&self, other: Self) -> (r: Self)
        ensures
            r.bits() == (self.bits() & !other.bits()),
    {
        InteractionApplicationCommandCallbackDataFlags { bits: self.bits & !other.bits }
    }
}

/// Sent when a message is a response to an interaction.
#[derive(Debug, PartialEq)]
pub struct MessageInteraction {
    /// The id of the interaction.
    pub id: InteractionId,
    /// The type of the interaction.
    pub kind: InteractionType,
    /// The name of the invoked command.
    pub name: String,
    /// The user who invoked the interaction.
    pub user: User,
}

} // verus!
