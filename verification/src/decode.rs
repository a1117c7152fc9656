//! Typed decoding of the payload: field-by-field extraction of the
//! interaction record, the command data, the resolved-object store,
//! and the options with their resolved values.
//!
//! Every exec decoder returns exactly what its spec counterpart
//! denotes; the spec functions fix the decoded value, the error, and
//! which of the two is produced, for every input.

use vstd::prelude::*;
use crate::error::{DecodeError, ErrorView, ExpectedShape, ReferenceKind};
use crate::ids::{ApplicationId, ChannelId, CommandId, GuildId, InteractionId, RoleId, UserId};
use crate::json::{
    clone_value, jview, jview_entries, jview_seq, lemma_jview_entries, lemma_jview_seq, lookup,
    obj_find, parse_u64, spec_parse_u64, JsonValue, JsonView,
};
use crate::model::{
    lemma_opts_view, opt_view, opts_view, spec_interaction_type_of, spec_option_type_of,
    ApplicationCommandInteractionData, ApplicationCommandInteractionDataOption,
    ApplicationCommandInteractionDataOptionValue, ApplicationCommandInteractionDataResolved,
    ApplicationCommandOptionType, ChannelView, DataView, Interaction, InteractionType,
    InteractionView, Member, MemberView, OptionValueView, OptionView, PartialChannel,
    PartialMember, ResolvedView, Role, RoleView, User, UserView,
};
use crate::normalize::{normalize_payload, spec_normalize};
use crate::store::IdMap;

verus! {

/// The result of a decoder, seen through the views of its value and
/// its error.
pub open spec fn res_view<T: View, E: View>(r: Result<T, E>) -> Result<T::V, E::V> {
    match r {
        Ok(t) => Ok(t@),
        Err(e) => Err(e@),
    }
}

/// A snowflake identifier read from a field value: a decimal
/// identifier string, or a non-negative integer.
pub open spec fn spec_snowflake(v: JsonView) -> Option<u64> {
    match v {
        JsonView::Str(s) => spec_parse_u64(s),
        JsonView::UInt(n) => Some(n),
        _ => None,
    }
}

/// Read a snowflake identifier from a field value.
pub fn snowflake_of(v: &JsonValue) -> (r: Option<u64>)
    ensures
        r == spec_snowflake(v@),
{
    match v {
        JsonValue::Str(s) => parse_u64(s.as_str()),
        JsonValue::UInt(n) => Some(*n),
        _ => None,
    }
}

/// What decoding a user object yields: `id` is required, `username`
/// is optional text.
pub open spec fn spec_decode_user(o: Seq<(Seq<char>, JsonView)>) -> Result<UserView, ErrorView> {
    match lookup(o, "id"@) {
        None => Err(ErrorView::MissingField("id"@)),
        Some(idv) => match spec_snowflake(idv) {
            None => Err(ErrorView::TypeMismatch("id"@, ExpectedShape::Snowflake)),
            Some(id) => match lookup(o, "username"@) {
                None => Ok(UserView { id, username: None }),
                Some(JsonView::Str(s)) => Ok(UserView { id, username: Some(s) }),
                Some(_) => Err(ErrorView::TypeMismatch("username"@, ExpectedShape::Text)),
            },
        },
    }
}

/// What decoding a member object yields: a `user` object is
/// required, `guild_id` is optional (set by normalization when the
/// payload is guild-scoped).
pub open spec fn spec_decode_member(o: Seq<(Seq<char>, JsonView)>) -> Result<
    MemberView,
    ErrorView,
> {
    match lookup(o, "user"@) {
        None => Err(ErrorView::MissingField("user"@)),
        Some(JsonView::Obj(uo)) => match spec_decode_user(uo) {
            Err(e) => Err(e),
            Ok(u) => match lookup(o, "guild_id"@) {
                None => Ok(MemberView { user: u, guild_id: None }),
                Some(gv) => match spec_snowflake(gv) {
                    None => Err(ErrorView::TypeMismatch("guild_id"@, ExpectedShape::Snowflake)),
                    Some(g) => Ok(MemberView { user: u, guild_id: Some(g) }),
                },
            },
        },
        Some(_) => Err(ErrorView::TypeMismatch("user"@, ExpectedShape::Object)),
    }
}

/// What decoding a role object yields: `id` is required, `guild_id`
/// and `name` are optional.
pub open spec fn spec_decode_role(o: Seq<(Seq<char>, JsonView)>) -> Result<RoleView, ErrorView> {
    match lookup(o, "id"@) {
        None => Err(ErrorView::MissingField("id"@)),
        Some(idv) => match spec_snowflake(idv) {
            None => Err(ErrorView::TypeMismatch("id"@, ExpectedShape::Snowflake)),
            Some(id) => match lookup(o, "guild_id"@) {
                Some(gv) => match spec_snowflake(gv) {
                    None => Err(ErrorView::TypeMismatch("guild_id"@, ExpectedShape::Snowflake)),
                    Some(g) => match lookup(o, "name"@) {
                        None => Ok(RoleView { id, guild_id: Some(g), name: None }),
                        Some(JsonView::Str(s)) => Ok(
                            RoleView { id, guild_id: Some(g), name: Some(s) },
                        ),
                        Some(_) => Err(ErrorView::TypeMismatch("name"@, ExpectedShape::Text)),
                    },
                },
                None => match lookup(o, "name"@) {
                    None => Ok(RoleView { id, guild_id: None, name: None }),
                    Some(JsonView::Str(s)) => Ok(RoleView { id, guild_id: None, name: Some(s) }),
                    Some(_) => Err(ErrorView::TypeMismatch("name"@, ExpectedShape::Text)),
                },
            },
        },
    }
}

/// What decoding a channel object yields: `id` is required,
/// `guild_id` and `name` are optional.
pub open spec fn spec_decode_channel(o: Seq<(Seq<char>, JsonView)>) -> Result<
    ChannelView,
    ErrorView,
> {
    match spec_decode_role(o) {
        Ok(r) => Ok(ChannelView { id: r.id, guild_id: r.guild_id, name: r.name }),
        Err(e) => Err(e),
    }
}

/// Decode a user object.
fn decode_user_entries(entries: &Vec<(String, JsonValue)>) -> (r: Result<User, DecodeError>)
    ensures
        res_view(r) == spec_decode_user(jview_entries(entries@)),
{
    let idv = match obj_find(entries, "id") {
        None => {
            return Err(DecodeError::MissingField("id".to_owned()));
        },
        Some(v) => v,
    };
    let id = match snowflake_of(idv) {
        None => {
            return Err(DecodeError::TypeMismatch("id".to_owned(), ExpectedShape::Snowflake));
        },
        Some(n) => n,
    };
    match obj_find(entries, "username") {
        None => Ok(User { id: UserId(id), username: None }),
        Some(JsonValue::Str(s)) => Ok(User { id: UserId(id), username: Some(s.clone()) }),
        Some(_) => Err(DecodeError::TypeMismatch("username".to_owned(), ExpectedShape::Text)),
    }
}

/// Decode a member object.
fn decode_member_entries(entries: &Vec<(String, JsonValue)>) -> (r: Result<
    PartialMember,
    DecodeError,
>)
    ensures
        res_view(r) == spec_decode_member(jview_entries(entries@)),
{
    let user = match obj_find(entries, "user") {
        None => {
            return Err(DecodeError::MissingField("user".to_owned()));
        },
        Some(JsonValue::Obj(uo)) => match decode_user_entries(uo) {
            Err(e) => {
                return Err(e);
            },
            Ok(u) => u,
        },
        Some(_) => {
            return Err(DecodeError::TypeMismatch("user".to_owned(), ExpectedShape::Object));
        },
    };
    match obj_find(entries, "guild_id") {
        None => Ok(PartialMember { user, guild_id: None }),
        Some(gv) => match snowflake_of(gv) {
            None => Err(
                DecodeError::TypeMismatch("guild_id".to_owned(), ExpectedShape::Snowflake),
            ),
            Some(g) => Ok(PartialMember { user, guild_id: Some(GuildId(g)) }),
        },
    }
}

/// Decode a role object.
fn decode_role_entries(entries: &Vec<(String, JsonValue)>) -> (r: Result<Role, DecodeError>)
    ensures
        res_view(r) == spec_decode_role(jview_entries(entries@)),
{
    let idv = match obj_find(entries, "id") {
        None => {
            return Err(DecodeError::MissingField("id".to_owned()));
        },
        Some(v) => v,
    };
    let id = match snowflake_of(idv) {
        None => {
            return Err(DecodeError::TypeMismatch("id".to_owned(), ExpectedShape::Snowflake));
        },
        Some(n) => n,
    };
    let guild_id = match obj_find(entries, "guild_id") {
        None => None,
        Some(gv) => match snowflake_of(gv) {
            None => {
                return Err(
                    DecodeError::TypeMismatch("guild_id".to_owned(), ExpectedShape::Snowflake),
                );
            },
            Some(g) => Some(GuildId(g)),
        },
    };
    match obj_find(entries, "name") {
        None => Ok(Role { id: RoleId(id), guild_id, name: None }),
        Some(JsonValue::Str(s)) => Ok(Role { id: RoleId(id), guild_id, name: Some(s.clone()) }),
        Some(_) => Err(DecodeError::TypeMismatch("name".to_owned(), ExpectedShape::Text)),
    }
}

/// Decode a channel object.
fn decode_channel_entries(entries: &Vec<(String, JsonValue)>) -> (r: Result<
    PartialChannel,
    DecodeError,
>)
    ensures
        res_view(r) == spec_decode_channel(jview_entries(entries@)),
{
    match decode_role_entries(entries) {
        Ok(role) => Ok(
            PartialChannel {
                id: ChannelId(role.id.0),
                guild_id: role.guild_id,
                name: role.name,
            },
        ),
        Err(e) => Err(e),
    }
}

/// What decoding an identifier-keyed table of users yields: every
/// key must be a decimal identifier, every value a well-formed user
/// object; later entries with the same key override earlier ones.
pub open spec fn spec_decode_user_table(o: Seq<(Seq<char>, JsonView)>) -> Result<
    Map<u64, UserView>,
    ErrorView,
>
    decreases o.len(),
{
    if o.len() == 0 {
        Ok(Map::empty())
    } else {
        match spec_decode_user_table(o.drop_last()) {
            Err(e) => Err(e),
            Ok(m) => {
                let kv = o.last();
                match spec_parse_u64(kv.0) {
                    None => Err(ErrorView::TypeMismatch(kv.0, ExpectedShape::Snowflake)),
                    Some(id) => match kv.1 {
                        JsonView::Obj(uo) => match spec_decode_user(uo) {
                            Err(e) => Err(e),
                            Ok(u) => Ok(m.insert(id, u)),
                        },
                        _ => Err(ErrorView::TypeMismatch(kv.0, ExpectedShape::Object)),
                    },
                }
            },
        }
    }
}

/// What decoding an identifier-keyed table of member profiles
/// yields.
pub open spec fn spec_decode_member_table(o: Seq<(Seq<char>, JsonView)>) -> Result<
    Map<u64, MemberView>,
    ErrorView,
>
    decreases o.len(),
{
    if o.len() == 0 {
        Ok(Map::empty())
    } else {
        match spec_decode_member_table(o.drop_last()) {
            Err(e) => Err(e),
            Ok(m) => {
                let kv = o.last();
                match spec_parse_u64(kv.0) {
                    None => Err(ErrorView::TypeMismatch(kv.0, ExpectedShape::Snowflake)),
                    Some(id) => match kv.1 {
                        JsonView::Obj(mo) => match spec_decode_member(mo) {
                            Err(e) => Err(e),
                            Ok(pm) => Ok(m.insert(id, pm)),
                        },
                        _ => Err(ErrorView::TypeMismatch(kv.0, ExpectedShape::Object)),
                    },
                }
            },
        }
    }
}

/// What decoding an identifier-keyed table of roles yields.
pub open spec fn spec_decode_role_table(o: Seq<(Seq<char>, JsonView)>) -> Result<
    Map<u64, RoleView>,
    ErrorView,
>
    decreases o.len(),
{
    if o.len() == 0 {
        Ok(Map::empty())
    } else {
        match spec_decode_role_table(o.drop_last()) {
            Err(e) => Err(e),
            Ok(m) => {
                let kv = o.last();
                match spec_parse_u64(kv.0) {
                    None => Err(ErrorView::TypeMismatch(kv.0, ExpectedShape::Snowflake)),
                    Some(id) => match kv.1 {
                        JsonView::Obj(ro) => match spec_decode_role(ro) {
                            Err(e) => Err(e),
                            Ok(role) => Ok(m.insert(id, role)),
                        },
                        _ => Err(ErrorView::TypeMismatch(kv.0, ExpectedShape::Object)),
                    },
                }
            },
        }
    }
}

/// What decoding an identifier-keyed table of channels yields.
pub open spec fn spec_decode_channel_table(o: Seq<(Seq<char>, JsonView)>) -> Result<
    Map<u64, ChannelView>,
    ErrorView,
>
    decreases o.len(),
{
    if o.len() == 0 {
        Ok(Map::empty())
    } else {
        match spec_decode_channel_table(o.drop_last()) {
            Err(e) => Err(e),
            Ok(m) => {
                let kv = o.last();
                match spec_parse_u64(kv.0) {
                    None => Err(ErrorView::TypeMismatch(kv.0, ExpectedShape::Snowflake)),
                    Some(id) => match kv.1 {
                        JsonView::Obj(co) => match spec_decode_channel(co) {
                            Err(e) => Err(e),
                            Ok(c) => Ok(m.insert(id, c)),
                        },
                        _ => Err(ErrorView::TypeMismatch(kv.0, ExpectedShape::Object)),
                    },
                }
            },
        }
    }
}

proof fn lemma_user_table_err(o: Seq<(Seq<char>, JsonView)>, j: int)
    requires
        0 <= j <= o.len(),
        spec_decode_user_table(o.take(j)) is Err,
    ensures
        spec_decode_user_table(o) == spec_decode_user_table(o.take(j)),
    decreases o.len() - j,
{
    if j == o.len() {
        assert(o.take(j) =~= o);
    } else {
        assert(o.take(j + 1).drop_last() =~= o.take(j));
        lemma_user_table_err(o, j + 1);
    }
}

proof fn lemma_member_table_err(o: Seq<(Seq<char>, JsonView)>, j: int)
    requires
        0 <= j <= o.len(),
        spec_decode_member_table(o.take(j)) is Err,
    ensures
        spec_decode_member_table(o) == spec_decode_member_table(o.take(j)),
    decreases o.len() - j,
{
    if j == o.len() {
        assert(o.take(j) =~= o);
    } else {
        assert(o.take(j + 1).drop_last() =~= o.take(j));
        lemma_member_table_err(o, j + 1);
    }
}

proof fn lemma_role_table_err(o: Seq<(Seq<char>, JsonView)>, j: int)
    requires
        0 <= j <= o.len(),
        spec_decode_role_table(o.take(j)) is Err,
    ensures
        spec_decode_role_table(o) == spec_decode_role_table(o.take(j)),
    decreases o.len() - j,
{
    if j == o.len() {
        assert(o.take(j) =~= o);
    } else {
        assert(o.take(j + 1).drop_last() =~= o.take(j));
        lemma_role_table_err(o, j + 1);
    }
}

proof fn lemma_channel_table_err(o: Seq<(Seq<char>, JsonView)>, j: int)
    requires
        0 <= j <= o.len(),
        spec_decode_channel_table(o.take(j)) is Err,
    ensures
        spec_decode_channel_table(o) == spec_decode_channel_table(o.take(j)),
    decreases o.len() - j,
{
    if j == o.len() {
        assert(o.take(j) =~= o);
    } else {
        assert(o.take(j + 1).drop_last() =~= o.take(j));
        lemma_channel_table_err(o, j + 1);
    }
}

/// Decode an identifier-keyed table of users.
#[verifier::loop_isolation(false)]
fn decode_user_table(entries: &Vec<(String, JsonValue)>) -> (r: Result<IdMap<User>, DecodeError>)
    ensures
        res_view(r) == spec_decode_user_table(jview_entries(entries@)),
{
    broadcast use lemma_jview_entries;

    let ghost ev = jview_entries(entries@);
    let mut out: IdMap<User> = IdMap::new();
    let mut i: usize = 0;
    while i < entries.len()
        invariant
            i <= entries@.len(),
            spec_decode_user_table(ev.take(i as int)) == Ok::<Map<u64, UserView>, ErrorView>(
                out@,
            ),
        decreases entries@.len() - i,
    {
        proof {
            assert(ev.take(i as int + 1).drop_last() =~= ev.take(i as int));
            assert(ev.take(i as int + 1).last() == ev[i as int]);
        }
        let key = &entries[i].0;
        let id = match parse_u64(key.as_str()) {
            None => {
                proof {
                    lemma_user_table_err(ev, i as int + 1);
                }
                return Err(DecodeError::TypeMismatch(key.clone(), ExpectedShape::Snowflake));
            },
            Some(n) => n,
        };
        match &entries[i].1 {
            JsonValue::Obj(uo) => match decode_user_entries(uo) {
                Err(e) => {
                    proof {
                        lemma_user_table_err(ev, i as int + 1);
                    }
                    return Err(e);
                },
                Ok(u) => {
                    out.insert(id, u);
                },
            },
            _ => {
                proof {
                    lemma_user_table_err(ev, i as int + 1);
                }
                return Err(DecodeError::TypeMismatch(key.clone(), ExpectedShape::Object));
            },
        }
        i += 1;
    }
    proof {
        assert(ev.take(entries@.len() as int) =~= ev);
    }
    Ok(out)
}

/// Decode an identifier-keyed table of member profiles.
#[verifier::loop_isolation(false)]
fn decode_member_table(entries: &Vec<(String, JsonValue)>) -> (r: Result<
    IdMap<PartialMember>,
    DecodeError,
>)
    ensures
        res_view(r) == spec_decode_member_table(jview_entries(entries@)),
{
    broadcast use lemma_jview_entries;

    let ghost ev = jview_entries(entries@);
    let mut out: IdMap<PartialMember> = IdMap::new();
    let mut i: usize = 0;
    while i < entries.len()
        invariant
            i <= entries@.len(),
            spec_decode_member_table(ev.take(i as int)) == Ok::<Map<u64, MemberView>, ErrorView>(
                out@,
            ),
        decreases entries@.len() - i,
    {
        proof {
            assert(ev.take(i as int + 1).drop_last() =~= ev.take(i as int));
            assert(ev.take(i as int + 1).last() == ev[i as int]);
        }
        let key = &entries[i].0;
        let id = match parse_u64(key.as_str()) {
            None => {
                proof {
                    lemma_member_table_err(ev, i as int + 1);
                }
                return Err(DecodeError::TypeMismatch(key.clone(), ExpectedShape::Snowflake));
            },
            Some(n) => n,
        };
        match &entries[i].1 {
            JsonValue::Obj(mo) => match decode_member_entries(mo) {
                Err(e) => {
                    proof {
                        lemma_member_table_err(ev, i as int + 1);
                    }
                    return Err(e);
                },
                Ok(pm) => {
                    out.insert(id, pm);
                },
            },
            _ => {
                proof {
                    lemma_member_table_err(ev, i as int + 1);
                }
                return Err(DecodeError::TypeMismatch(key.clone(), ExpectedShape::Object));
            },
        }
        i += 1;
    }
    proof {
        assert(ev.take(entries@.len() as int) =~= ev);
    }
    Ok(out)
}

/// Decode an identifier-keyed table of roles.
#[verifier::loop_isolation(false)]
fn decode_role_table(entries: &Vec<(String, JsonValue)>) -> (r: Result<IdMap<Role>, DecodeError>)
    ensures
        res_view(r) == spec_decode_role_table(jview_entries(entries@)),
{
    broadcast use lemma_jview_entries;

    let ghost ev = jview_entries(entries@);
    let mut out: IdMap<Role> = IdMap::new();
    let mut i: usize = 0;
    while i < entries.len()
        invariant
            i <= entries@.len(),
            spec_decode_role_table(ev.take(i as int)) == Ok::<Map<u64, RoleView>, ErrorView>(
                out@,
            ),
        decreases entries@.len() - i,
    {
        proof {
            assert(ev.take(i as int + 1).drop_last() =~= ev.take(i as int));
            assert(ev.take(i as int + 1).last() == ev[i as int]);
        }
        let key = &entries[i].0;
        let id = match parse_u64(key.as_str()) {
            None => {
                proof {
                    lemma_role_table_err(ev, i as int + 1);
                }
                return Err(DecodeError::TypeMismatch(key.clone(), ExpectedShape::Snowflake));
            },
            Some(n) => n,
        };
        match &entries[i].1 {
            JsonValue::Obj(ro) => match decode_role_entries(ro) {
                Err(e) => {
                    proof {
                        lemma_role_table_err(ev, i as int + 1);
                    }
                    return Err(e);
                },
                Ok(role) => {
                    out.insert(id, role);
                },
            },
            _ => {
                proof {
                    lemma_role_table_err(ev, i as int + 1);
                }
                return Err(DecodeError::TypeMismatch(key.clone(), ExpectedShape::Object));
            },
        }
        i += 1;
    }
    proof {
        assert(ev.take(entries@.len() as int) =~= ev);
    }
    Ok(out)
}

/// Decode an identifier-keyed table of channels.
#[verifier::loop_isolation(false)]
fn decode_channel_table(entries: &Vec<(String, JsonValue)>) -> (r: Result<
    IdMap<PartialChannel>,
    DecodeError,
>)
    ensures
        res_view(r) == spec_decode_channel_table(jview_entries(entries@)),
{
    broadcast use lemma_jview_entries;

    let ghost ev = jview_entries(entries@);
    let mut out: IdMap<PartialChannel> = IdMap::new();
    let mut i: usize = 0;
    while i < entries.len()
        invariant
            i <= entries@.len(),
            spec_decode_channel_table(ev.take(i as int)) == Ok::<
                Map<u64, ChannelView>,
                ErrorView,
            >(out@),
        decreases entries@.len() - i,
    {
        proof {
            assert(ev.take(i as int + 1).drop_last() =~= ev.take(i as int));
            assert(ev.take(i as int + 1).last() == ev[i as int]);
        }
        let key = &entries[i].0;
        let id = match parse_u64(key.as_str()) {
            None => {
                proof {
                    lemma_channel_table_err(ev, i as int + 1);
                }
                return Err(DecodeError::TypeMismatch(key.clone(), ExpectedShape::Snowflake));
            },
            Some(n) => n,
        };
        match &entries[i].1 {
            JsonValue::Obj(co) => match decode_channel_entries(co) {
                Err(e) => {
                    proof {
                        lemma_channel_table_err(ev, i as int + 1);
                    }
                    return Err(e);
                },
                Ok(c) => {
                    out.insert(id, c);
                },
            },
            _ => {
                proof {
                    lemma_channel_table_err(ev, i as int + 1);
                }
                return Err(DecodeError::TypeMismatch(key.clone(), ExpectedShape::Object));
            },
        }
        i += 1;
    }
    proof {
        assert(ev.take(entries@.len() as int) =~= ev);
    }
    Ok(out)
}

/// What decoding the `resolved` value yields: each of the four
/// tables is optional and defaults to empty; a present table must be
/// an object of well-formed entries.
pub open spec fn spec_decode_resolved(v: JsonView) -> Result<ResolvedView, ErrorView> {
    match v {
        JsonView::Obj(o) => {
            let members_r = match lookup(o, "members"@) {
                None => Ok(Map::empty()),
                Some(JsonView::Obj(mo)) => spec_decode_member_table(mo),
                Some(_) => Err(ErrorView::TypeMismatch("members"@, ExpectedShape::Object)),
            };
            match members_r {
                Err(e) => Err(e),
                Ok(members) => {
                    let users_r = match lookup(o, "users"@) {
                        None => Ok(Map::empty()),
                        Some(JsonView::Obj(uo)) => spec_decode_user_table(uo),
                        Some(_) => Err(ErrorView::TypeMismatch("users"@, ExpectedShape::Object)),
                    };
                    match users_r {
                        Err(e) => Err(e),
                        Ok(users) => {
                            let roles_r = match lookup(o, "roles"@) {
                                None => Ok(Map::empty()),
                                Some(JsonView::Obj(ro)) => spec_decode_role_table(ro),
                                Some(_) => Err(
                                    ErrorView::TypeMismatch("roles"@, ExpectedShape::Object),
                                ),
                            };
                            match roles_r {
                                Err(e) => Err(e),
                                Ok(roles) => {
                                    let channels_r = match lookup(o, "channels"@) {
                                        None => Ok(Map::empty()),
                                        Some(JsonView::Obj(co)) => spec_decode_channel_table(co),
                                        Some(_) => Err(
                                            ErrorView::TypeMismatch(
                                                "channels"@,
                                                ExpectedShape::Object,
                                            ),
                                        ),
                                    };
                                    match channels_r {
                                        Err(e) => Err(e),
                                        Ok(channels) => Ok(
                                            ResolvedView { users, members, roles, channels },
                                        ),
                                    }
                                },
                            }
                        },
                    }
                },
            }
        },
        _ => Err(ErrorView::TypeMismatch("resolved"@, ExpectedShape::Object)),
    }
}

impl ApplicationCommandInteractionDataResolved {
    /// Decode the `resolved` value of a command data payload.  Each
    /// of the four tables defaults to empty when absent.
    pub fn decode(v: &JsonValue) -> (r: Result<Self, DecodeError>)
        ensures
            res_view(r) == spec_decode_resolved(v@),
    {
        match v {
            JsonValue::Obj(entries) => {
                let members = match obj_find(entries, "members") {
                    None => IdMap::new(),
                    Some(JsonValue::Obj(mo)) => match decode_member_table(mo) {
                        Err(e) => {
                            return Err(e);
                        },
                        Ok(m) => m,
                    },
                    Some(_) => {
                        return Err(
                            DecodeError::TypeMismatch("members".to_owned(), ExpectedShape::Object),
                        );
                    },
                };
                let users = match obj_find(entries, "users") {
                    None => IdMap::new(),
                    Some(JsonValue::Obj(uo)) => match decode_user_table(uo) {
                        Err(e) => {
                            return Err(e);
                        },
                        Ok(m) => m,
                    },
                    Some(_) => {
                        return Err(
                            DecodeError::TypeMismatch("users".to_owned(), ExpectedShape::Object),
                        );
                    },
                };
                let roles = match obj_find(entries, "roles") {
                    None => IdMap::new(),
                    Some(JsonValue::Obj(ro)) => match decode_role_table(ro) {
                        Err(e) => {
                            return Err(e);
                        },
                        Ok(m) => m,
                    },
                    Some(_) => {
                        return Err(
                            DecodeError::TypeMismatch("roles".to_owned(), ExpectedShape::Object),
                        );
                    },
                };
                let channels = match obj_find(entries, "channels") {
                    None => IdMap::new(),
                    Some(JsonValue::Obj(co)) => match decode_channel_table(co) {
                        Err(e) => {
                            return Err(e);
                        },
                        Ok(m) => m,
                    },
                    Some(_) => {
                        return Err(
                            DecodeError::TypeMismatch(
                                "channels".to_owned(),
                                ExpectedShape::Object,
                            ),
                        );
                    },
                };
                Ok(
                    ApplicationCommandInteractionDataResolved {
                        users,
                        members,
                        roles,
                        channels,
                    },
                )
            },
            _ => Err(DecodeError::TypeMismatch("resolved".to_owned(), ExpectedShape::Object)),
        }
    }
}

/// What resolving one option's raw value against the resolved store
/// yields, given the option's declared kind.  Kinds `User`, `Channel`
/// and `Role` carry a string-encoded identifier on the wire, which
/// must exist in the corresponding table; container kinds and
/// unrecognized kinds carry no resolved value.
pub open spec fn spec_resolve(
    value: JsonView,
    kind: ApplicationCommandOptionType,
    name: Seq<char>,
    store: ResolvedView,
) -> Result<Option<OptionValueView>, ErrorView> {
    match kind {
        ApplicationCommandOptionType::String => match value {
            JsonView::Str(s) => Ok(Some(OptionValueView::String(s))),
            _ => Err(ErrorView::TypeMismatch(name, ExpectedShape::Text)),
        },
        ApplicationCommandOptionType::Integer => match value {
            JsonView::UInt(n) => if n <= i64::MAX {
                Ok(Some(OptionValueView::Integer(n as i64)))
            } else {
                Err(ErrorView::TypeMismatch(name, ExpectedShape::Integer))
            },
            JsonView::Int(n) => Ok(Some(OptionValueView::Integer(n))),
            _ => Err(ErrorView::TypeMismatch(name, ExpectedShape::Integer)),
        },
        ApplicationCommandOptionType::Boolean => match value {
            JsonView::Bool(b) => Ok(Some(OptionValueView::Boolean(b))),
            _ => Err(ErrorView::TypeMismatch(name, ExpectedShape::Boolean)),
        },
        ApplicationCommandOptionType::User => match value {
            JsonView::Str(s) => match spec_parse_u64(s) {
                None => Err(ErrorView::TypeMismatch(name, ExpectedShape::Snowflake)),
                Some(id) => if store.users.contains_key(id) {
                    Ok(
                        Some(
                            OptionValueView::User(
                                store.users[id],
                                if store.members.contains_key(id) {
                                    Some(store.members[id])
                                } else {
                                    None
                                },
                            ),
                        ),
                    )
                } else {
                    Err(ErrorView::UnresolvedReference(id, ReferenceKind::User))
                },
            },
            _ => Err(ErrorView::TypeMismatch(name, ExpectedShape::Snowflake)),
        },
        ApplicationCommandOptionType::Channel => match value {
            JsonView::Str(s) => match spec_parse_u64(s) {
                None => Err(ErrorView::TypeMismatch(name, ExpectedShape::Snowflake)),
                Some(id) => if store.channels.contains_key(id) {
                    Ok(Some(OptionValueView::Channel(store.channels[id])))
                } else {
                    Err(ErrorView::UnresolvedReference(id, ReferenceKind::Channel))
                },
            },
            _ => Err(ErrorView::TypeMismatch(name, ExpectedShape::Snowflake)),
        },
        ApplicationCommandOptionType::Role => match value {
            JsonView::Str(s) => match spec_parse_u64(s) {
                None => Err(ErrorView::TypeMismatch(name, ExpectedShape::Snowflake)),
                Some(id) => if store.roles.contains_key(id) {
                    Ok(Some(OptionValueView::Role(store.roles[id])))
                } else {
                    Err(ErrorView::UnresolvedReference(id, ReferenceKind::Role))
                },
            },
            _ => Err(ErrorView::TypeMismatch(name, ExpectedShape::Snowflake)),
        },
        _ => Ok(None),
    }
}

/// The view of a resolver result.
pub open spec fn resolved_res_view(
    r: Result<Option<ApplicationCommandInteractionDataOptionValue>, DecodeError>,
) -> Result<Option<OptionValueView>, ErrorView> {
    match r {
        Ok(Some(v)) => Ok(Some(v@)),
        Ok(None) => Ok(None),
        Err(e) => Err(e@),
    }
}

/// Resolve one option's raw value against the resolved store,
/// according to the option's declared kind.  `name` is the option's
/// name, used in error reports.
pub fn resolve_option_value(
    value: &JsonValue,
    kind: ApplicationCommandOptionType,
    name: &str,
    store: &ApplicationCommandInteractionDataResolved,
) -> (r: Result<Option<ApplicationCommandInteractionDataOptionValue>, DecodeError>)
    ensures
        resolved_res_view(r) == spec_resolve(value@, kind, name@, store@),
{
    match kind {
        ApplicationCommandOptionType::String => match value {
            JsonValue::Str(s) => Ok(
                Some(ApplicationCommandInteractionDataOptionValue::String(s.clone())),
            ),
            _ => Err(DecodeError::TypeMismatch(name.to_owned(), ExpectedShape::Text)),
        },
        ApplicationCommandOptionType::Integer => match value {
            JsonValue::UInt(n) => if *n <= i64::MAX as u64 {
                Ok(Some(ApplicationCommandInteractionDataOptionValue::Integer(*n as i64)))
            } else {
                Err(DecodeError::TypeMismatch(name.to_owned(), ExpectedShape::Integer))
            },
            JsonValue::Int(n) => Ok(
                Some(ApplicationCommandInteractionDataOptionValue::Integer(*n)),
            ),
            _ => Err(DecodeError::TypeMismatch(name.to_owned(), ExpectedShape::Integer)),
        },
        ApplicationCommandOptionType::Boolean => match value {
            JsonValue::Bool(b) => Ok(
                Some(ApplicationCommandInteractionDataOptionValue::Boolean(*b)),
            ),
            _ => Err(DecodeError::TypeMismatch(name.to_owned(), ExpectedShape::Boolean)),
        },
        ApplicationCommandOptionType::User => match value {
            JsonValue::Str(s) => match parse_u64(s.as_str()) {
                None => Err(DecodeError::TypeMismatch(name.to_owned(), ExpectedShape::Snowflake)),
                Some(id) => match store.users.get(id) {
                    Some(u) => {
                        let member = match store.members.get(id) {
                            Some(pm) => Some(pm.duplicate()),
                            None => None,
                        };
                        Ok(
                            Some(
                                ApplicationCommandInteractionDataOptionValue::User(
                                    u.duplicate(),
                                    member,
                                ),
                            ),
                        )
                    },
                    None => Err(DecodeError::UnresolvedReference(id, ReferenceKind::User)),
                },
            },
            _ => Err(DecodeError::TypeMismatch(name.to_owned(), ExpectedShape::Snowflake)),
        },
        ApplicationCommandOptionType::Channel => match value {
            JsonValue::Str(s) => match parse_u64(s.as_str()) {
                None => Err(DecodeError::TypeMismatch(name.to_owned(), ExpectedShape::Snowflake)),
                Some(id) => match store.channels.get(id) {
                    Some(c) => Ok(
                        Some(
                            ApplicationCommandInteractionDataOptionValue::Channel(c.duplicate()),
                        ),
                    ),
                    None => Err(DecodeError::UnresolvedReference(id, ReferenceKind::Channel)),
                },
            },
            _ => Err(DecodeError::TypeMismatch(name.to_owned(), ExpectedShape::Snowflake)),
        },
        ApplicationCommandOptionType::Role => match value {
            JsonValue::Str(s) => match parse_u64(s.as_str()) {
                None => Err(DecodeError::TypeMismatch(name.to_owned(), ExpectedShape::Snowflake)),
                Some(id) => match store.roles.get(id) {
                    Some(role) => Ok(
                        Some(ApplicationCommandInteractionDataOptionValue::Role(role.duplicate())),
                    ),
                    None => Err(DecodeError::UnresolvedReference(id, ReferenceKind::Role)),
                },
            },
            _ => Err(DecodeError::TypeMismatch(name.to_owned(), ExpectedShape::Snowflake)),
        },
        _ => Ok(None),
    }
}

/// What decoding one element of an options array yields.  The
/// element must be an object with a `name` and a `type`; its nested
/// options are decoded recursively with the same store, and its raw
/// value, when present, is resolved according to the declared kind.
pub open spec fn spec_decode_option(v: JsonView, store: ResolvedView) -> Result<
    OptionView,
    ErrorView,
>
    decreases v, 1int,
{
    match v {
        JsonView::Obj(o) => match lookup(o, "name"@) {
            None => Err(ErrorView::MissingField("name"@)),
            Some(JsonView::Str(name)) => match lookup(o, "type"@) {
                None => Err(ErrorView::MissingField("type"@)),
                Some(tv) => {
                    let kind_opt = match tv {
                        JsonView::UInt(n) => Some(spec_option_type_of(n)),
                        JsonView::Int(_) => Some(ApplicationCommandOptionType::Unknown),
                        _ => None,
                    };
                    match kind_opt {
                        None => Err(ErrorView::TypeMismatch("type"@, ExpectedShape::Integer)),
                        Some(kind) => {
                            let nested = match lookup(o, "options"@) {
                                None => Ok(Seq::<OptionView>::empty()),
                                Some(JsonView::Arr(elems)) => {
                                    proof {
                                        assert(decreases_to!(v => v->Obj_0));
                                        crate::json::lemma_lookup_decreases(
                                            o,
                                            "options"@,
                                            JsonView::Arr(elems),
                                        );
                                        let av = JsonView::Arr(elems);
                                        assert(decreases_to!(av => av->Arr_0));
                                        assert(av->Arr_0 == elems);
                                    }
                                    spec_decode_options(elems, store)
                                },
                                Some(_) => Err(
                                    ErrorView::TypeMismatch("options"@, ExpectedShape::Array),
                                ),
                            };
                            match nested {
                                Err(e) => Err(e),
                                Ok(opts) => match lookup(o, "value"@) {
                                    None => Ok(
                                        OptionView {
                                            name,
                                            value: None,
                                            kind,
                                            options: opts,
                                            resolved: None,
                                        },
                                    ),
                                    Some(rv) => match spec_resolve(rv, kind, name, store) {
                                        Err(e) => Err(e),
                                        Ok(res) => Ok(
                                            OptionView {
                                                name,
                                                value: Some(rv),
                                                kind,
                                                options: opts,
                                                resolved: res,
                                            },
                                        ),
                                    },
                                },
                            }
                        },
                    }
                },
            },
            Some(_) => Err(ErrorView::TypeMismatch("name"@, ExpectedShape::Text)),
        },
        _ => Err(ErrorView::TypeMismatch("options"@, ExpectedShape::Object)),
    }
}

/// What decoding an options array yields: each element in order,
/// stopping at the first failure.
pub open spec fn spec_decode_options(elems: Seq<JsonView>, store: ResolvedView) -> Result<
    Seq<OptionView>,
    ErrorView,
>
    decreases elems, 0int,
{
    if elems.len() == 0 {
        Ok(Seq::empty())
    } else {
        match spec_decode_option(elems[0], store) {
            Err(e) => Err(e),
            Ok(first) => match spec_decode_options(elems.drop_first(), store) {
                Err(e) => Err(e),
                Ok(rest) => Ok(seq![first] + rest),
            },
        }
    }
}

impl ApplicationCommandInteractionDataOption {
    /// Decode one element of an options array, resolving its raw
    /// value against `store`.
    pub fn decode(
        v: &JsonValue,
        store: &ApplicationCommandInteractionDataResolved,
    ) -> (r: Result<Self, DecodeError>)
        ensures
            res_view(r) == spec_decode_option(v@, store@),
        decreases v@, 1int,
    {
        broadcast use lemma_jview_entries, lemma_jview_seq, lemma_opts_view;

        match v {
            JsonValue::Obj(entries) => {
                let name: &String = match obj_find(entries, "name") {
                    None => {
                        return Err(DecodeError::MissingField("name".to_owned()));
                    },
                    Some(JsonValue::Str(s)) => s,
                    Some(_) => {
                        return Err(
                            DecodeError::TypeMismatch("name".to_owned(), ExpectedShape::Text),
                        );
                    },
                };
                let kind: ApplicationCommandOptionType = match obj_find(entries, "type") {
                    None => {
                        return Err(DecodeError::MissingField("type".to_owned()));
                    },
                    Some(JsonValue::UInt(n)) => ApplicationCommandOptionType::from_number(*n),
                    Some(JsonValue::Int(_)) => ApplicationCommandOptionType::Unknown,
                    Some(_) => {
                        return Err(
                            DecodeError::TypeMismatch("type".to_owned(), ExpectedShape::Integer),
                        );
                    },
                };
                let options: Vec<ApplicationCommandInteractionDataOption> = match obj_find(
                    entries,
                    "options",
                ) {
                    None => Vec::new(),
                    Some(arrv) => match arrv {
                        JsonValue::Arr(elems) => {
                            proof {
                                assert(decreases_to!(v@ => (v@)->Obj_0));
                                crate::json::lemma_lookup_decreases(
                                    jview_entries(entries@),
                                    "options"@,
                                    jview(*arrv),
                                );
                                let av = jview(*arrv);
                                assert(decreases_to!(av => av->Arr_0));
                                assert(av->Arr_0 == jview_seq(elems@));
                            }
                            match decode_options(elems, store) {
                                Err(e) => {
                                    return Err(e);
                                },
                                Ok(os) => os,
                            }
                        },
                        _ => {
                            return Err(
                                DecodeError::TypeMismatch(
                                    "options".to_owned(),
                                    ExpectedShape::Array,
                                ),
                            );
                        },
                    },
                };
                match obj_find(entries, "value") {
                    None => Ok(
                        ApplicationCommandInteractionDataOption {
                            name: name.clone(),
                            value: None,
                            kind,
                            options,
                            resolved: None,
                        },
                    ),
                    Some(rv) => match resolve_option_value(rv, kind, name.as_str(), store) {
                        Err(e) => Err(e),
                        Ok(res) => Ok(
                            ApplicationCommandInteractionDataOption {
                                name: name.clone(),
                                value: Some(clone_value(rv)),
                                kind,
                                options,
                                resolved: res,
                            },
                        ),
                    },
                }
            },
            _ => Err(DecodeError::TypeMismatch("options".to_owned(), ExpectedShape::Object)),
        }
    }
}

/// Decode an options array in input order, stopping at the first
/// failure.
#[verifier::loop_isolation(false)]
fn decode_options(
    elems: &Vec<JsonValue>,
    store: &ApplicationCommandInteractionDataResolved,
) -> (r: Result<Vec<ApplicationCommandInteractionDataOption>, DecodeError>)
    ensures
        match r {
            Ok(os) => spec_decode_options(jview_seq(elems@), store@) == Ok::<_, ErrorView>(
                opts_view(os@),
            ),
            Err(e) => spec_decode_options(jview_seq(elems@), store@) == Err::<
                Seq<OptionView>,
                _,
            >(e@),
        },
    decreases jview_seq(elems@), 0int,
{
    broadcast use lemma_jview_seq, lemma_opts_view;

    let ghost s = jview_seq(elems@);
    let mut out: Vec<ApplicationCommandInteractionDataOption> = Vec::new();
    proof {
        assert(s.skip(0) =~= s);
        match spec_decode_options(s, store@) {
            Ok(rest) => {
                assert(opts_view(out@) + rest =~= rest);
            },
            Err(_) => {},
        }
    }
    let mut i: usize = 0;
    while i < elems.len()
        invariant
            i <= elems@.len(),
            out@.len() == i,
            spec_decode_options(s, store@) == (match spec_decode_options(
                s.skip(i as int),
                store@,
            ) {
                Ok(rest) => Ok::<Seq<OptionView>, ErrorView>(opts_view(out@) + rest),
                Err(e) => Err::<Seq<OptionView>, ErrorView>(e),
            }),
        decreases elems@.len() - i,
    {
        proof {
            assert(s.skip(i as int)[0] == s[i as int]);
            assert(s.skip(i as int).drop_first() =~= s.skip(i as int + 1));
            assert(decreases_to!(s => s[i as int]));
        }
        let d = match ApplicationCommandInteractionDataOption::decode(&elems[i], store) {
            Err(e) => {
                proof {
                    assert(spec_decode_options(s.skip(i as int), store@) == Err::<
                        Seq<OptionView>,
                        ErrorView,
                    >(e@));
                }
                return Err(e);
            },
            Ok(d) => d,
        };
        let ghost prev = out@;
        out.push(d);
        proof {
            assert(out@.drop_last() =~= prev);
            assert(opts_view(out@) == opts_view(prev).push(opt_view(d)));
            match spec_decode_options(s.skip(i as int + 1), store@) {
                Ok(rest) => {
                    assert(opts_view(prev) + (seq![opt_view(d)] + rest) =~= opts_view(out@)
                        + rest);
                },
                Err(_) => {},
            }
        }
        i += 1;
    }
    proof {
        assert(s.skip(s.len() as int) =~= Seq::<JsonView>::empty());
        match spec_decode_options(s, store@) {
            Ok(rest) => {
                assert(opts_view(out@) + Seq::<OptionView>::empty() =~= opts_view(out@));
            },
            Err(_) => {},
        }
    }
    Ok(out)
}

/// What decoding the `data` value yields: `name` and `id` are
/// required; `resolved` defaults to the empty store and is decoded
/// before the options, which are resolved against it.
pub open spec fn spec_decode_data(v: JsonView) -> Result<DataView, ErrorView> {
    match v {
        JsonView::Obj(o) => match lookup(o, "name"@) {
            None => Err(ErrorView::MissingField("name"@)),
            Some(JsonView::Str(name)) => match lookup(o, "id"@) {
                None => Err(ErrorView::MissingField("id"@)),
                Some(idv) => match spec_snowflake(idv) {
                    None => Err(ErrorView::TypeMismatch("id"@, ExpectedShape::Snowflake)),
                    Some(id) => {
                        let resolved_r = match lookup(o, "resolved"@) {
                            None => Ok(ResolvedView::empty()),
                            Some(rv) => spec_decode_resolved(rv),
                        };
                        match resolved_r {
                            Err(e) => Err(e),
                            Ok(store) => {
                                let opts_r = match lookup(o, "options"@) {
                                    None => Ok(Seq::<OptionView>::empty()),
                                    Some(JsonView::Arr(elems)) => spec_decode_options(
                                        elems,
                                        store,
                                    ),
                                    Some(_) => Err(
                                        ErrorView::TypeMismatch("options"@, ExpectedShape::Array),
                                    ),
                                };
                                match opts_r {
                                    Err(e) => Err(e),
                                    Ok(opts) => Ok(
                                        DataView { id, name, options: opts, resolved: store },
                                    ),
                                }
                            },
                        }
                    },
                },
            },
            Some(_) => Err(ErrorView::TypeMismatch("name"@, ExpectedShape::Text)),
        },
        _ => Err(ErrorView::TypeMismatch("data"@, ExpectedShape::Object)),
    }
}

impl ApplicationCommandInteractionData {
    /// Decode the `data` value of an interaction payload.  The
    /// resolved store is decoded first; the options are then decoded
    /// against it, in input order.
    pub fn decode(v: &JsonValue) -> (r: Result<Self, DecodeError>)
        ensures
            res_view(r) == spec_decode_data(v@),
    {
        broadcast use lemma_jview_entries, lemma_jview_seq, lemma_opts_view;

        match v {
            JsonValue::Obj(entries) => {
                let name: String = match obj_find(entries, "name") {
                    None => {
                        return Err(DecodeError::MissingField("name".to_owned()));
                    },
                    Some(JsonValue::Str(s)) => s.clone(),
                    Some(_) => {
                        return Err(
                            DecodeError::TypeMismatch("name".to_owned(), ExpectedShape::Text),
                        );
                    },
                };
                let id: u64 = match obj_find(entries, "id") {
                    None => {
                        return Err(DecodeError::MissingField("id".to_owned()));
                    },
                    Some(idv) => match snowflake_of(idv) {
                        None => {
                            return Err(
                                DecodeError::TypeMismatch(
                                    "id".to_owned(),
                                    ExpectedShape::Snowflake,
                                ),
                            );
                        },
                        Some(n) => n,
                    },
                };
                let resolved: ApplicationCommandInteractionDataResolved = match obj_find(
                    entries,
                    "resolved",
                ) {
                    None => Default::default(),
                    Some(rv) => match ApplicationCommandInteractionDataResolved::decode(rv) {
                        Err(e) => {
                            return Err(e);
                        },
                        Ok(s) => s,
                    },
                };
                let options: Vec<ApplicationCommandInteractionDataOption> = match obj_find(
                    entries,
                    "options",
                ) {
                    None => Vec::new(),
                    Some(JsonValue::Arr(elems)) => match decode_options(elems, &resolved) {
                        Err(e) => {
                            return Err(e);
                        },
                        Ok(os) => os,
                    },
                    Some(_) => {
                        return Err(
                            DecodeError::TypeMismatch("options".to_owned(), ExpectedShape::Array),
                        );
                    },
                };
                Ok(
                    ApplicationCommandInteractionData {
                        id: CommandId(id),
                        name,
                        options,
                        resolved,
                    },
                )
            },
            _ => Err(DecodeError::TypeMismatch("data".to_owned(), ExpectedShape::Object)),
        }
    }
}

/// What decoding the fields of a normalized payload object yields.
/// The required fields are `id`, `application_id`, `type`, `token`
/// and `version`; `data`, `guild_id`, `channel_id`, `member` and
/// `user` are decoded only when present.  Unknown keys are ignored.
pub open spec fn spec_decode_fields(o: Seq<(Seq<char>, JsonView)>) -> Result<
    InteractionView,
    ErrorView,
> {
    match lookup(o, "id"@) {
        None => Err(ErrorView::MissingField("id"@)),
        Some(idv) => match spec_snowflake(idv) {
            None => Err(ErrorView::TypeMismatch("id"@, ExpectedShape::Snowflake)),
            Some(id) => match lookup(o, "application_id"@) {
                None => Err(ErrorView::MissingField("application_id"@)),
                Some(av) => match spec_snowflake(av) {
                    None => Err(
                        ErrorView::TypeMismatch("application_id"@, ExpectedShape::Snowflake),
                    ),
                    Some(application_id) => match lookup(o, "type"@) {
                        None => Err(ErrorView::MissingField("type"@)),
                        Some(tv) => {
                            let kind_opt = match tv {
                                JsonView::UInt(n) => Some(spec_interaction_type_of(n)),
                                JsonView::Int(_) => Some(InteractionType::Unknown),
                                _ => None,
                            };
                            match kind_opt {
                                None => Err(
                                    ErrorView::TypeMismatch("type"@, ExpectedShape::Integer),
                                ),
                                Some(kind) => {
                                    let data_r = match lookup(o, "data"@) {
                                        None => Ok(None),
                                        Some(dv) => match spec_decode_data(dv) {
                                            Err(e) => Err(e),
                                            Ok(d) => Ok(Some(d)),
                                        },
                                    };
                                    match data_r {
                                        Err(e) => Err(e),
                                        Ok(data) => spec_decode_tail(
                                            o,
                                            id,
                                            application_id,
                                            kind,
                                            data,
                                        ),
                                    }
                                },
                            }
                        },
                    },
                },
            },
        },
    }
}

/// The optional scoping fields and the trailing required fields of a
/// payload: `guild_id`, `channel_id`, `member`, `user`, then `token`
/// and `version`.
pub open spec fn spec_decode_tail(
    o: Seq<(Seq<char>, JsonView)>,
    id: u64,
    application_id: u64,
    kind: InteractionType,
    data: Option<DataView>,
) -> Result<InteractionView, ErrorView> {
    let guild_r = match lookup(o, "guild_id"@) {
        None => Ok(None),
        Some(gv) => match spec_snowflake(gv) {
            None => Err(ErrorView::TypeMismatch("guild_id"@, ExpectedShape::Snowflake)),
            Some(g) => Ok(Some(g)),
        },
    };
    match guild_r {
        Err(e) => Err(e),
        Ok(guild_id) => {
            let channel_r = match lookup(o, "channel_id"@) {
                None => Ok(None),
                Some(cv) => match spec_snowflake(cv) {
                    None => Err(ErrorView::TypeMismatch("channel_id"@, ExpectedShape::Snowflake)),
                    Some(c) => Ok(Some(c)),
                },
            };
            match channel_r {
                Err(e) => Err(e),
                Ok(channel_id) => {
                    let member_r = match lookup(o, "member"@) {
                        None => Ok(None),
                        Some(JsonView::Obj(mo)) => match spec_decode_member(mo) {
                            Err(e) => Err(e),
                            Ok(m) => Ok(Some(m)),
                        },
                        Some(_) => Err(
                            ErrorView::TypeMismatch("member"@, ExpectedShape::Object),
                        ),
                    };
                    match member_r {
                        Err(e) => Err(e),
                        Ok(member) => {
                            let user_r = match lookup(o, "user"@) {
                                None => Ok(None),
                                Some(JsonView::Obj(uo)) => match spec_decode_user(uo) {
                                    Err(e) => Err(e),
                                    Ok(u) => Ok(Some(u)),
                                },
                                Some(_) => Err(
                                    ErrorView::TypeMismatch("user"@, ExpectedShape::Object),
                                ),
                            };
                            match user_r {
                                Err(e) => Err(e),
                                Ok(user) => match lookup(o, "token"@) {
                                    None => Err(ErrorView::MissingField("token"@)),
                                    Some(JsonView::Str(token)) => match lookup(o, "version"@) {
                                        None => Err(ErrorView::MissingField("version"@)),
                                        Some(JsonView::UInt(n)) => if n <= 255 {
                                            Ok(
                                                InteractionView {
                                                    id,
                                                    application_id,
                                                    kind,
                                                    data,
                                                    guild_id,
                                                    channel_id,
                                                    member,
                                                    user,
                                                    token,
                                                    version: n as u8,
                                                },
                                            )
                                        } else {
                                            Err(
                                                ErrorView::TypeMismatch(
                                                    "version"@,
                                                    ExpectedShape::UnsignedInteger,
                                                ),
                                            )
                                        },
                                        Some(_) => Err(
                                            ErrorView::TypeMismatch(
                                                "version"@,
                                                ExpectedShape::UnsignedInteger,
                                            ),
                                        ),
                                    },
                                    Some(_) => Err(
                                        ErrorView::TypeMismatch("token"@, ExpectedShape::Text),
                                    ),
                                },
                            }
                        },
                    }
                },
            }
        },
    }
}

/// What decoding a normalized payload yields: the payload must be an
/// object; its fields are then decoded as [`spec_decode_fields`]
/// says.
pub open spec fn spec_decode_normalized(p: JsonView) -> Result<InteractionView, ErrorView> {
    match p {
        JsonView::Obj(o) => spec_decode_fields(o),
        _ => Err(ErrorView::TypeMismatch("payload"@, ExpectedShape::Object)),
    }
}

/// What decoding a raw payload yields: the normalization pass runs
/// first, then the field-by-field decode.
pub open spec fn spec_decode_interaction(p: JsonView) -> Result<InteractionView, ErrorView> {
    spec_decode_normalized(spec_normalize(p))
}

/// Decode the fields of a normalized payload object.
fn decode_fields(entries: &Vec<(String, JsonValue)>) -> (r: Result<Interaction, DecodeError>)
    ensures
        res_view(r) == spec_decode_fields(jview_entries(entries@)),
{
    broadcast use lemma_jview_entries;

    let id: u64 = match obj_find(entries, "id") {
        None => {
            return Err(DecodeError::MissingField("id".to_owned()));
        },
        Some(idv) => match snowflake_of(idv) {
            None => {
                return Err(DecodeError::TypeMismatch("id".to_owned(), ExpectedShape::Snowflake));
            },
            Some(n) => n,
        },
    };
    let application_id: u64 = match obj_find(entries, "application_id") {
        None => {
            return Err(DecodeError::MissingField("application_id".to_owned()));
        },
        Some(av) => match snowflake_of(av) {
            None => {
                return Err(
                    DecodeError::TypeMismatch(
                        "application_id".to_owned(),
                        ExpectedShape::Snowflake,
                    ),
                );
            },
            Some(n) => n,
        },
    };
    let kind: InteractionType = match obj_find(entries, "type") {
        None => {
            return Err(DecodeError::MissingField("type".to_owned()));
        },
        Some(JsonValue::UInt(n)) => InteractionType::from_number(*n),
        Some(JsonValue::Int(_)) => InteractionType::Unknown,
        Some(_) => {
            return Err(DecodeError::TypeMismatch("type".to_owned(), ExpectedShape::Integer));
        },
    };
    let data: Option<ApplicationCommandInteractionData> = match obj_find(entries, "data") {
        None => None,
        Some(dv) => match ApplicationCommandInteractionData::decode(dv) {
            Err(e) => {
                return Err(e);
            },
            Ok(d) => Some(d),
        },
    };
    let guild_id: Option<GuildId> = match obj_find(entries, "guild_id") {
        None => None,
        Some(gv) => match snowflake_of(gv) {
            None => {
                return Err(
                    DecodeError::TypeMismatch("guild_id".to_owned(), ExpectedShape::Snowflake),
                );
            },
            Some(g) => Some(GuildId(g)),
        },
    };
    let channel_id: Option<ChannelId> = match obj_find(entries, "channel_id") {
        None => None,
        Some(cv) => match snowflake_of(cv) {
            None => {
                return Err(
                    DecodeError::TypeMismatch("channel_id".to_owned(), ExpectedShape::Snowflake),
                );
            },
            Some(c) => Some(ChannelId(c)),
        },
    };
    let member: Option<Member> = match obj_find(entries, "member") {
        None => None,
        Some(JsonValue::Obj(mo)) => match decode_member_entries(mo) {
            Err(e) => {
                return Err(e);
            },
            Ok(pm) => Some(Member { user: pm.user, guild_id: pm.guild_id }),
        },
        Some(_) => {
            return Err(DecodeError::TypeMismatch("member".to_owned(), ExpectedShape::Object));
        },
    };
    let user: Option<User> = match obj_find(entries, "user") {
        None => None,
        Some(JsonValue::Obj(uo)) => match decode_user_entries(uo) {
            Err(e) => {
                return Err(e);
            },
            Ok(u) => Some(u),
        },
        Some(_) => {
            return Err(DecodeError::TypeMismatch("user".to_owned(), ExpectedShape::Object));
        },
    };
    let token: String = match obj_find(entries, "token") {
        None => {
            return Err(DecodeError::MissingField("token".to_owned()));
        },
        Some(JsonValue::Str(s)) => s.clone(),
        Some(_) => {
            return Err(DecodeError::TypeMismatch("token".to_owned(), ExpectedShape::Text));
        },
    };
    let version: u8 = match obj_find(entries, "version") {
        None => {
            return Err(DecodeError::MissingField("version".to_owned()));
        },
        Some(JsonValue::UInt(n)) => if *n <= 255 {
            *n as u8
        } else {
            return Err(
                DecodeError::TypeMismatch("version".to_owned(), ExpectedShape::UnsignedInteger),
            );
        },
        Some(_) => {
            return Err(
                DecodeError::TypeMismatch("version".to_owned(), ExpectedShape::UnsignedInteger),
            );
        },
    };
    Ok(
        Interaction {
            id: InteractionId(id),
            application_id: ApplicationId(application_id),
            kind,
            data,
            guild_id,
            channel_id,
            member,
            user,
            token,
            version,
        },
    )
}

impl Interaction {
    /// Decode a raw interaction payload.  The normalization pass
    /// runs first; the typed fields are then extracted, and the
    /// command data's options are resolved against the payload's
    /// resolved-object store.  Decode either fully succeeds or fails
    /// with a structured error; no partial record is returned.
    pub fn decode(payload: &JsonValue) -> (r: Result<Interaction, DecodeError>)
        ensures
            res_view(r) == spec_decode_interaction(payload@),
    {
        let normalized = normalize_payload(payload);
        match &normalized {
            JsonValue::Obj(entries) => decode_fields(entries),
            _ => Err(DecodeError::TypeMismatch("payload".to_owned(), ExpectedShape::Object)),
        }
    }
}

} // verus!
