//! The typed data model of an interaction payload.

use vstd::prelude::*;
use crate::ids::{ApplicationId, ChannelId, CommandId, GuildId, InteractionId, RoleId, UserId};
use crate::json::{jview, JsonValue, JsonView};
use crate::store::IdMap;

verus! {

/// The type of an interaction.  Unrecognized wire values decode to
/// `Unknown` instead of failing, for forward compatibility.
#[derive(Clone, Copy, Debug, Hash, Eq, PartialEq, Structural)]
pub enum InteractionType {
    Ping,
    ApplicationCommand,
    Unknown,
}

/// The interaction type denoted by a wire discriminant.
pub open spec fn spec_interaction_type_of(n: u64) -> InteractionType {
    if n == 1 {
        InteractionType::Ping
    } else if n == 2 {
        InteractionType::ApplicationCommand
    } else {
        InteractionType::Unknown
    }
}

impl InteractionType {
    /// Decode a wire discriminant: `1` is `Ping`, `2` is
    /// `ApplicationCommand`, and any other value is `Unknown`.
    pub fn from_number(n: u64) -> (r: Self)
        ensures
            r == spec_interaction_type_of(n),
    {
        if n == 1 {
            InteractionType::Ping
        } else if n == 2 {
            InteractionType::ApplicationCommand
        } else {
            InteractionType::Unknown
        }
    }

    /// The wire discriminant of this interaction type; `Unknown` maps
    /// to the sentinel value `255`.
    pub fn number(self) -> (n: u8)
        ensures
            self == InteractionType::Ping ==> n == 1,
            self == InteractionType::ApplicationCommand ==> n == 2,
            self == InteractionType::Unknown ==> n == 255,
    {
        match self {
            InteractionType::Ping => 1,
            InteractionType::ApplicationCommand => 2,
            InteractionType::Unknown => 255,
        }
    }
}

/// The declared type of a command option.
#[derive(Clone, Copy, Debug, Hash, Eq, PartialEq, Structural)]
pub enum ApplicationCommandOptionType {
    SubCommand,
    SubCommandGroup,
    String,
    Integer,
    Boolean,
    User,
    Channel,
    Role,
    Unknown,
}

/// The option type denoted by a wire discriminant.
pub open spec fn spec_option_type_of(n: u64) -> ApplicationCommandOptionType {
    if n == 1 {
        ApplicationCommandOptionType::SubCommand
    } else if n == 2 {
        ApplicationCommandOptionType::SubCommandGroup
    } else if n == 3 {
        ApplicationCommandOptionType::String
    } else if n == 4 {
        ApplicationCommandOptionType::Integer
    } else if n == 5 {
        ApplicationCommandOptionType::Boolean
    } else if n == 6 {
        ApplicationCommandOptionType::User
    } else if n == 7 {
        ApplicationCommandOptionType::Channel
    } else if n == 8 {
        ApplicationCommandOptionType::Role
    } else {
        ApplicationCommandOptionType::Unknown
    }
}

impl ApplicationCommandOptionType {
    /// Decode a wire discriminant; unrecognized values are `Unknown`.
    pub fn from_number(n: u64) -> (r: Self)
        ensures
            r == spec_option_type_of(n),
    {
        if n == 1 {
            ApplicationCommandOptionType::SubCommand
        } else if n == 2 {
            ApplicationCommandOptionType::SubCommandGroup
        } else if n == 3 {
            ApplicationCommandOptionType::String
        } else if n == 4 {
            ApplicationCommandOptionType::Integer
        } else if n == 5 {
            ApplicationCommandOptionType::Boolean
        } else if n == 6 {
            ApplicationCommandOptionType::User
        } else if n == 7 {
            ApplicationCommandOptionType::Channel
        } else if n == 8 {
            ApplicationCommandOptionType::Role
        } else {
            ApplicationCommandOptionType::Unknown
        }
    }

    /// The wire discriminant; `Unknown` maps to the sentinel `255`.
    pub fn number(self) -> (n: u8)
        ensures
            n == match self {
                ApplicationCommandOptionType::SubCommand => 1u8,
                ApplicationCommandOptionType::SubCommandGroup => 2u8,
                ApplicationCommandOptionType::String => 3u8,
                ApplicationCommandOptionType::Integer => 4u8,
                ApplicationCommandOptionType::Boolean => 5u8,
                ApplicationCommandOptionType::User => 6u8,
                ApplicationCommandOptionType::Channel => 7u8,
                ApplicationCommandOptionType::Role => 8u8,
                ApplicationCommandOptionType::Unknown => 255u8,
            },
    {
        match self {
            ApplicationCommandOptionType::SubCommand => 1,
            ApplicationCommandOptionType::SubCommandGroup => 2,
            ApplicationCommandOptionType::String => 3,
            ApplicationCommandOptionType::Integer => 4,
            ApplicationCommandOptionType::Boolean => 5,
            ApplicationCommandOptionType::User => 6,
            ApplicationCommandOptionType::Channel => 7,
            ApplicationCommandOptionType::Role => 8,
            ApplicationCommandOptionType::Unknown => 255,
        }
    }
}

/// The view of a [`User`].
pub struct UserView {
    pub id: u64,
    pub username: Option<Seq<char>>,
}

/// A referenced user, as materialized in the resolved data.
#[derive(Debug, PartialEq)]
pub struct User {
    pub id: UserId,
    pub username: Option<String>,
}

impl View for User {
    type V = UserView;

    open spec fn view(&self) -> UserView {
        UserView {
            id: self.id.0,
            username: match self.username {
                Some(s) => Some(s@),
                None => None,
            },
        }
    }
}

impl User {
    /// A structural copy of this user.
    pub fn duplicate(&self) -> (r: User)
        ensures
            r == *self,
    {
        User {
            id: self.id,
            username: match &self.username {
                Some(s) => Some(s.clone()),
                None => None,
            },
        }
    }
}

/// The view of a [`Member`] or a [`PartialMember`].
pub struct MemberView {
    pub user: UserView,
    pub guild_id: Option<u64>,
}

/// The invoking member, present when the interaction was triggered in
/// a guild.  Its `guild_id` is injected by the normalization pass.
#[derive(Debug, PartialEq)]
pub struct Member {
    pub user: User,
    pub guild_id: Option<GuildId>,
}

impl View for Member {
    type V = MemberView;

    open spec fn view(&self) -> MemberView {
        MemberView {
            user: self.user@,
            guild_id: match self.guild_id {
                Some(g) => Some(g.0),
                None => None,
            },
        }
    }
}

/// A referenced guild-member profile from the resolved data.
#[derive(Debug, PartialEq)]
pub struct PartialMember {
    pub user: User,
    pub guild_id: Option<GuildId>,
}

impl View for PartialMember {
    type V = MemberView;

    open spec fn view(&self) -> MemberView {
        MemberView {
            user: self.user@,
            guild_id: match self.guild_id {
                Some(g) => Some(g.0),
                None => None,
            },
        }
    }
}

impl PartialMember {
    /// A structural copy of this member profile.
    pub fn duplicate(&self) -> (r: PartialMember)
        ensures
            r == *self,
    {
        PartialMember { user: self.user.duplicate(), guild_id: self.guild_id }
    }
}

/// The view of a [`Role`].
pub struct RoleView {
    pub id: u64,
    pub guild_id: Option<u64>,
    pub name: Option<Seq<char>>,
}

/// A referenced role from the resolved data.  Its `guild_id` is
/// injected by the normalization pass.
#[derive(Debug, PartialEq)]
pub struct Role {
    pub id: RoleId,
    pub guild_id: Option<GuildId>,
    pub name: Option<String>,
}

impl View for Role {
    type V = RoleView;

    open spec fn view(&self) -> RoleView {
        RoleView {
            id: self.id.0,
            guild_id: match self.guild_id {
                Some(g) => Some(g.0),
                None => None,
            },
            name: match self.name {
                Some(s) => Some(s@),
                None => None,
            },
        }
    }
}

impl Role {
    /// A structural copy of this role.
    pub fn duplicate(&self) -> (r: Role)
        ensures
            r == *self,
    {
        Role {
            id: self.id,
            guild_id: self.guild_id,
            name: match &self.name {
                Some(s) => Some(s.clone()),
                None => None,
            },
        }
    }
}

/// The view of a [`PartialChannel`].
pub struct ChannelView {
    pub id: u64,
    pub guild_id: Option<u64>,
    pub name: Option<Seq<char>>,
}

/// A referenced channel from the resolved data.  Its `guild_id` is
/// injected by the normalization pass.
#[derive(Debug, PartialEq)]
pub struct PartialChannel {
    pub id: ChannelId,
    pub guild_id: Option<GuildId>,
    pub name: Option<String>,
}

impl View for PartialChannel {
    type V = ChannelView;

    open spec fn view(&self) -> ChannelView {
        ChannelView {
            id: self.id.0,
            guild_id: match self.guild_id {
                Some(g) => Some(g.0),
                None => None,
            },
            name: match self.name {
                Some(s) => Some(s@),
                None => None,
            },
        }
    }
}

impl PartialChannel {
    /// A structural copy of this channel.
    pub fn duplicate(&self) -> (r: PartialChannel)
        ensures
            r == *self,
    {
        PartialChannel {
            id: self.id,
            guild_id: self.guild_id,
            name: match &self.name {
                Some(s) => Some(s.clone()),
                None => None,
            },
        }
    }
}

/// The view of an [`ApplicationCommandInteractionDataResolved`].
pub struct ResolvedView {
    pub users: Map<u64, UserView>,
    pub members: Map<u64, MemberView>,
    pub roles: Map<u64, RoleView>,
    pub channels: Map<u64, ChannelView>,
}

impl ResolvedView {
    /// The store with all four mappings empty.
    pub open spec fn empty() -> ResolvedView {
        ResolvedView {
            users: Map::empty(),
            members: Map::empty(),
            roles: Map::empty(),
            channels: Map::empty(),
        }
    }
}

/// The referenced objects supplied alongside a command payload: four
/// keyed mappings, built once per payload.
#[derive(Debug, PartialEq)]
pub struct ApplicationCommandInteractionDataResolved {
    pub users: IdMap<User>,
    pub members: IdMap<PartialMember>,
    pub roles: IdMap<Role>,
    pub channels: IdMap<PartialChannel>,
}

impl View for ApplicationCommandInteractionDataResolved {
    type V = ResolvedView;

    open spec fn view(&self) -> ResolvedView {
        ResolvedView {
            users: self.users@,
            members: self.members@,
            roles: self.roles@,
            channels: self.channels@,
        }
    }
}

impl Default for ApplicationCommandInteractionDataResolved {
    /// The store with all four mappings empty.
    fn default() -> (r: Self)
        ensures
            r@ == ResolvedView::empty(),
    {
        ApplicationCommandInteractionDataResolved {
            users: IdMap::new(),
            members: IdMap::new(),
            roles: IdMap::new(),
            channels: IdMap::new(),
        }
    }
}

/// The view of an [`ApplicationCommandInteractionDataOptionValue`].
pub enum OptionValueView {
    String(Seq<char>),
    Integer(i64),
    Boolean(bool),
    User(UserView, Option<MemberView>),
    Channel(ChannelView),
    Role(RoleView),
}

/// The resolved, variant-tagged value of an option.  The variant is
/// dictated by the option's declared kind, not by the raw JSON shape.
#[derive(Debug, PartialEq)]
pub enum ApplicationCommandInteractionDataOptionValue {
    String(String),
    Integer(i64),
    Boolean(bool),
    User(User, Option<PartialMember>),
    Channel(PartialChannel),
    Role(Role),
}

impl View for ApplicationCommandInteractionDataOptionValue {
    type V = OptionValueView;

    open spec fn view(&self) -> OptionValueView {
        match self {
            ApplicationCommandInteractionDataOptionValue::String(s) => OptionValueView::String(
                s@,
            ),
            ApplicationCommandInteractionDataOptionValue::Integer(n) => OptionValueView::Integer(
                *n,
            ),
            ApplicationCommandInteractionDataOptionValue::Boolean(b) => OptionValueView::Boolean(
                *b,
            ),
            ApplicationCommandInteractionDataOptionValue::User(u, m) => OptionValueView::User(
                u@,
                match m {
                    Some(pm) => Some(pm@),
                    None => None,
                },
            ),
            ApplicationCommandInteractionDataOptionValue::Channel(c) => OptionValueView::Channel(
                c@,
            ),
            ApplicationCommandInteractionDataOptionValue::Role(r) => OptionValueView::Role(r@),
        }
    }
}

/// The view of an [`ApplicationCommandInteractionDataOption`].
pub struct OptionView {
    pub name: Seq<char>,
    pub value: Option<JsonView>,
    pub kind: ApplicationCommandOptionType,
    pub options: Seq<OptionView>,
    pub resolved: Option<OptionValueView>,
}

/// One named parameter (or subcommand container) of a command
/// invocation.  `resolved` is populated during decode; it is not part
/// of the wire payload.
#[derive(Debug, PartialEq)]
pub struct ApplicationCommandInteractionDataOption {
    pub name: String,
    pub value: Option<JsonValue>,
    pub kind: ApplicationCommandOptionType,
    pub options: Vec<ApplicationCommandInteractionDataOption>,
    pub resolved: Option<ApplicationCommandInteractionDataOptionValue>,
}

/// The view of an option, recursing through its nested options.
pub open spec fn opt_view(o: ApplicationCommandInteractionDataOption) -> OptionView
    decreases o,
{
    OptionView {
        name: o.name@,
        value: match o.value {
            Some(v) => Some(jview(v)),
            None => None,
        },
        kind: o.kind,
        options: {
            proof {
                assert(decreases_to!(o => o.options));
                assert(decreases_to!(o.options => o.options@));
            }
            opts_view(o.options@)
        },
        resolved: match o.resolved {
            Some(rv) => Some(rv@),
            None => None,
        },
    }
}

/// The views of a sequence of options, element by element.
pub open spec fn opts_view(s: Seq<ApplicationCommandInteractionDataOption>) -> Seq<OptionView>
    decreases s,
{
    if s.len() == 0 {
        Seq::empty()
    } else {
        opts_view(s.drop_last()).push(opt_view(s.last()))
    }
}

pub broadcast proof fn lemma_opts_view(s: Seq<ApplicationCommandInteractionDataOption>)
    ensures
        (#[trigger] opts_view(s)).len() == s.len(),
        forall|i: int| 0 <= i < s.len() ==> opts_view(s)[i] == opt_view(s[i]),
    decreases s.len(),
{
    if s.len() > 0 {
        lemma_opts_view(s.drop_last());
    }
}

impl View for ApplicationCommandInteractionDataOption {
    type V = OptionView;

    open spec fn view(&self) -> OptionView {
        opt_view(*self)
    }
}

/// The view of an [`ApplicationCommandInteractionData`].
pub struct DataView {
    pub id: u64,
    pub name: Seq<char>,
    pub options: Seq<OptionView>,
    pub resolved: ResolvedView,
}

/// The command data payload: the invoked command, its options in
/// input order, and the referenced objects they point into.
#[derive(Debug, PartialEq)]
pub struct ApplicationCommandInteractionData {
    pub id: CommandId,
    pub name: String,
    pub options: Vec<ApplicationCommandInteractionDataOption>,
    pub resolved: ApplicationCommandInteractionDataResolved,
}

impl View for ApplicationCommandInteractionData {
    type V = DataView;

    open spec fn view(&self) -> DataView {
        DataView {
            id: self.id.0,
            name: self.name@,
            options: opts_view(self.options@),
            resolved: self.resolved@,
        }
    }
}

/// The view of an [`Interaction`].
pub struct InteractionView {
    pub id: u64,
    pub application_id: u64,
    pub kind: InteractionType,
    pub data: Option<DataView>,
    pub guild_id: Option<u64>,
    pub channel_id: Option<u64>,
    pub member: Option<MemberView>,
    pub user: Option<UserView>,
    pub token: Seq<char>,
    pub version: u8,
}

/// A fully decoded interaction record.
///
/// Well-formed server payloads carry exactly one of `member` (guild
/// context) and `user` (direct-message context), according to
/// whether `guild_id` is present, and carry `data` exactly when the
/// kind is `ApplicationCommand`; the decoder reports what the
/// payload held and does not reject payloads that break that
/// convention.
#[derive(Debug, PartialEq)]
pub struct Interaction {
    /// Id of the interaction.
    pub id: InteractionId,
    /// Id of the application this interaction is for.
    pub application_id: ApplicationId,
    /// The type of interaction.
    pub kind: InteractionType,
    /// The data of the command which was triggered, if there is one.
    pub data: Option<ApplicationCommandInteractionData>,
    /// The guild Id this interaction was sent from, if there is one.
    pub guild_id: Option<GuildId>,
    /// The channel Id this interaction was sent from, if there is one.
    pub channel_id: Option<ChannelId>,
    /// The `member` data for the invoking user, present when the
    /// interaction was triggered in a guild.
    pub member: Option<Member>,
    /// The `user` object for the invoking user, present when the
    /// interaction was triggered in a direct message.
    pub user: Option<User>,
    /// A continuation token for responding to the interaction.  It
    /// is an opaque credential for the transport layer, valid only
    /// for a short window after the interaction arrives.
    pub token: String,
    /// Always `1`.
    pub version: u8,
}

impl View for Interaction {
    type V = InteractionView;

    open spec fn view(&self) -> InteractionView {
        InteractionView {
            id: self.id.0,
            application_id: self.application_id.0,
            kind: self.kind,
            data: match self.data {
                Some(d) => Some(d@),
                None => None,
            },
            guild_id: match self.guild_id {
                Some(g) => Some(g.0),
                None => None,
            },
            channel_id: match self.channel_id {
                Some(c) => Some(c.0),
                None => None,
            },
            member: match self.member {
                Some(m) => Some(m@),
                None => None,
            },
            user: match self.user {
                Some(u) => Some(u@),
                None => None,
            },
            token: self.token@,
            version: self.version,
        }
    }
}

} // verus!
