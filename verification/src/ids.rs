//! Opaque 64-bit identifiers, one type per entity kind.

use vstd::prelude::*;

verus! {

/// Identifier of an interaction event.
#[derive(Clone, Copy, Debug, PartialEq, Eq, Hash, Structural)]
pub struct InteractionId(pub u64);

/// Identifier of the application a command belongs to.
#[derive(Clone, Copy, Debug, PartialEq, Eq, Hash, Structural)]
pub struct ApplicationId(pub u64);

/// Identifier of a guild (the scoping context of members, roles and
/// channels).
#[derive(Clone, Copy, Debug, PartialEq, Eq, Hash, Structural)]
pub struct GuildId(pub u64);

/// Identifier of a channel.
#[derive(Clone, Copy, Debug, PartialEq, Eq, Hash, Structural)]
pub struct ChannelId(pub u64);

/// Identifier of a role.
#[derive(Clone, Copy, Debug, PartialEq, Eq, Hash, Structural)]
pub struct RoleId(pub u64);

/// Identifier of a user.
#[derive(Clone, Copy, Debug, PartialEq, Eq, Hash, Structural)]
pub struct UserId(pub u64);

/// Identifier of a registered application command.
#[derive(Clone, Copy, Debug, PartialEq, Eq, Hash, Structural)]
pub struct CommandId(pub u64);

/// Identifier of the subject of a command permission: a role or a
/// user, depending on the permission's kind.
#[derive(Clone, Copy, Debug, PartialEq, Eq, Hash, Structural)]
pub struct CommandPermissionId(pub u64);

impl CommandPermissionId {
    /// Converts this [`CommandPermissionId`] to a [`UserId`].
    pub fn to_user_id(self) -> (r: UserId)
        ensures
            r == UserId(self.0),
    {
        UserId(self.0)
    }

    /// Converts this [`CommandPermissionId`] to a [`RoleId`].
    pub fn to_role_id(self) -> (r: RoleId)
        ensures
            r == RoleId(self.0),
    {
        RoleId(self.0)
    }
}

impl From<RoleId> for CommandPermissionId {
    fn from(id: RoleId) -> Self {
        CommandPermissionId(id.0)
    }
}

impl vstd::std_specs::convert::FromSpecImpl<RoleId> for CommandPermissionId {
    open spec fn obeys_from_spec() -> bool {
        true
    }

    open spec fn from_spec(id: RoleId) -> Self {
        CommandPermissionId(id.0)
    }
}

impl From<UserId> for CommandPermissionId {
    fn from(id: UserId) -> Self {
        CommandPermissionId(id.0)
    }
}

impl vstd::std_specs::convert::FromSpecImpl<UserId> for CommandPermissionId {
    open spec fn obeys_from_spec() -> bool {
        true
    }

    open spec fn from_spec(id: UserId) -> Self {
        CommandPermissionId(id.0)
    }
}

impl From<CommandPermissionId> for RoleId {
    fn from(id: CommandPermissionId) -> Self {
        RoleId(id.0)
    }
}

impl vstd::std_specs::convert::FromSpecImpl<CommandPermissionId> for RoleId {
    open spec fn obeys_from_spec() -> bool {
        true
    }

    open spec fn from_spec(id: CommandPermissionId) -> Self {
        RoleId(id.0)
    }
}

impl From<CommandPermissionId> for UserId {
    fn from(id: CommandPermissionId) -> Self {
        UserId(id.0)
    }
}

impl vstd::std_specs::convert::FromSpecImpl<CommandPermissionId> for UserId {
    open spec fn obeys_from_spec() -> bool {
        true
    }

    open spec fn from_spec(id: CommandPermissionId) -> Self {
        UserId(id.0)
    }
}

} // verus!
