//! Properties of the pipeline, stated and proved over the spec
//! functions that the decoders' contracts are written in.

use vstd::prelude::*;
use crate::decode::{
    spec_decode_data, spec_decode_fields, spec_decode_interaction, spec_decode_option,
    spec_decode_options, spec_resolve,
};
use crate::error::ErrorView;
use crate::error::ReferenceKind;
use crate::json::{
    lemma_lookup_set_other, lemma_lookup_set_same, lookup, set_key, spec_parse_u64, JsonView,
};
use crate::model::{
    spec_interaction_type_of, ApplicationCommandOptionType, DataView, InteractionType,
    InteractionView, OptionView, ResolvedView,
};
use crate::normalize::{
    guild_context, norm_data, norm_resolved, norm_table, spec_normalize, with_guild,
};

verus! {

/// The value of field `k` of `v`, when `v` is an object holding it.
pub open spec fn field_of(v: JsonView, k: Seq<char>) -> Option<JsonView> {
    match v {
        JsonView::Obj(o) => lookup(o, k),
        _ => None,
    }
}

/// The `table` mapping of a payload's `data.resolved`, if present.
pub open spec fn resolved_table_of(p: JsonView, table: Seq<char>) -> Option<JsonView> {
    match field_of(p, "data"@) {
        Some(d) => match field_of(d, "resolved"@) {
            Some(r) => field_of(r, table),
            None => None,
        },
        None => None,
    }
}

/// An object that went through [`with_guild`] carries the guild
/// identifier.
pub proof fn lemma_with_guild_carries(v: JsonView, g: u64)
    requires
        v is Obj,
    ensures
        field_of(with_guild(v, g), "guild_id"@) == Some(JsonView::UInt(g)),
{
    lemma_lookup_set_same(v->Obj_0, "guild_id"@, JsonView::UInt(g));
}

/// [`norm_table`] keeps every key and entry count, rewrites each
/// entry by [`with_guild`], and thereby sets the guild identifier on
/// every entry that is an object.
pub proof fn lemma_norm_table_entries(t: Seq<(Seq<char>, JsonView)>, g: u64)
    ensures
        norm_table(JsonView::Obj(t), g) is Obj,
        norm_table(JsonView::Obj(t), g)->Obj_0.len() == t.len(),
        forall|i: int|
            0 <= i < t.len() ==> (#[trigger] norm_table(JsonView::Obj(t), g)->Obj_0[i]) == (
            t[i].0,
            with_guild(t[i].1, g),
            ),
        forall|i: int|
            0 <= i < t.len() && (#[trigger] t[i]).1 is Obj ==> field_of(
                norm_table(JsonView::Obj(t), g)->Obj_0[i].1,
                "guild_id"@,
            ) == Some(JsonView::UInt(g)),
{
    assert forall|i: int| 0 <= i < t.len() && (#[trigger] t[i]).1 is Obj implies field_of(
        norm_table(JsonView::Obj(t), g)->Obj_0[i].1,
        "guild_id"@,
    ) == Some(JsonView::UInt(g)) by {
        lemma_with_guild_carries(t[i].1, g);
    }
}

/// How [`norm_data`] rewrites the `resolved` field.
proof fn lemma_norm_data_structure(dv: JsonView, g: u64)
    ensures
        field_of(norm_data(dv, g), "resolved"@) == (match field_of(dv, "resolved"@) {
            Some(rv) => Some(norm_resolved(rv, g)),
            None => None::<JsonView>,
        }),
{
    match dv {
        JsonView::Obj(o) => match lookup(o, "resolved"@) {
            Some(rv) => {
                lemma_lookup_set_same(o, "resolved"@, norm_resolved(rv, g));
            },
            None => {},
        },
        _ => {},
    }
}

/// How [`norm_resolved`] rewrites the `roles` and `channels` tables.
proof fn lemma_norm_resolved_structure(rv: JsonView, g: u64)
    ensures
        field_of(norm_resolved(rv, g), "roles"@) == (match field_of(rv, "roles"@) {
            Some(t) => Some(norm_table(t, g)),
            None => None::<JsonView>,
        }),
        field_of(norm_resolved(rv, g), "channels"@) == (match field_of(rv, "channels"@) {
            Some(t) => Some(norm_table(t, g)),
            None => None::<JsonView>,
        }),
{
    reveal_strlit("roles");
    reveal_strlit("channels");
    assert("roles"@.len() == 5);
    assert("channels"@.len() == 8);
    assert("roles"@ != "channels"@);
    match rv {
        JsonView::Obj(o) => {
            let o1 = match lookup(o, "roles"@) {
                Some(t) => set_key(o, "roles"@, norm_table(t, g)),
                None => o,
            };
            match lookup(o, "roles"@) {
                Some(t) => {
                    lemma_lookup_set_same(o, "roles"@, norm_table(t, g));
                    lemma_lookup_set_other(o, "roles"@, norm_table(t, g), "channels"@);
                },
                None => {},
            }
            match lookup(o1, "channels"@) {
                Some(t) => {
                    lemma_lookup_set_same(o1, "channels"@, norm_table(t, g));
                    lemma_lookup_set_other(o1, "channels"@, norm_table(t, g), "roles"@);
                },
                None => {},
            }
        },
        _ => {},
    }
}

/// How the normalization pass rewrites the payload: the `member`
/// field and the two resolved tables are mapped through their
/// injections, field for field.
pub proof fn lemma_normalize_structure(p: JsonView, g: u64)
    requires
        guild_context(p) == Some(g),
    ensures
        field_of(spec_normalize(p), "member"@) == (match field_of(p, "member"@) {
            Some(mv) => Some(with_guild(mv, g)),
            None => None::<JsonView>,
        }),
        resolved_table_of(spec_normalize(p), "roles"@) == (match resolved_table_of(
            p,
            "roles"@,
        ) {
            Some(t) => Some(norm_table(t, g)),
            None => None::<JsonView>,
        }),
        resolved_table_of(spec_normalize(p), "channels"@) == (match resolved_table_of(
            p,
            "channels"@,
        ) {
            Some(t) => Some(norm_table(t, g)),
            None => None::<JsonView>,
        }),
{
    reveal_strlit("member");
    reveal_strlit("data");
    assert("member"@.len() == 6);
    assert("data"@.len() == 4);
    assert("member"@ != "data"@);
    let o = p->Obj_0;
    let o1 = match lookup(o, "member"@) {
        Some(mv) => set_key(o, "member"@, with_guild(mv, g)),
        None => o,
    };
    match lookup(o, "member"@) {
        Some(mv) => {
            lemma_lookup_set_same(o, "member"@, with_guild(mv, g));
            lemma_lookup_set_other(o, "member"@, with_guild(mv, g), "data"@);
        },
        None => {},
    }
    match lookup(o1, "data"@) {
        Some(dv) => {
            lemma_lookup_set_same(o1, "data"@, norm_data(dv, g));
            lemma_lookup_set_other(o1, "data"@, norm_data(dv, g), "member"@);
            lemma_norm_data_structure(dv, g);
            match field_of(dv, "resolved"@) {
                Some(rv) => {
                    lemma_norm_resolved_structure(rv, g);
                },
                None => {},
            }
        },
        None => {},
    }
}

/// Without a usable top-level `guild_id`, the normalization pass
/// leaves the payload exactly as received.
pub proof fn lemma_normalize_without_guild(p: JsonView)
    requires
        guild_context(p) is None,
    ensures
        spec_normalize(p) == p,
{
}

/// The identifier an option value of reference kind denotes.
pub open spec fn ref_id_of(value: JsonView) -> Option<u64> {
    match value {
        JsonView::Str(s) => spec_parse_u64(s),
        _ => None,
    }
}

/// Whether the store's table for `kind` holds `id`.
pub open spec fn ref_table_contains(
    store: ResolvedView,
    kind: ApplicationCommandOptionType,
    id: u64,
) -> bool {
    match kind {
        ApplicationCommandOptionType::User => store.users.contains_key(id),
        ApplicationCommandOptionType::Channel => store.channels.contains_key(id),
        ApplicationCommandOptionType::Role => store.roles.contains_key(id),
        _ => false,
    }
}

/// The reference kind an option kind looks up.
pub open spec fn ref_kind_of(kind: ApplicationCommandOptionType) -> ReferenceKind {
    match kind {
        ApplicationCommandOptionType::User => ReferenceKind::User,
        ApplicationCommandOptionType::Channel => ReferenceKind::Channel,
        _ => ReferenceKind::Role,
    }
}

/// For an option of kind `User`, `Channel` or `Role`, resolution
/// succeeds exactly when the raw value is an identifier string whose
/// identifier the corresponding table holds; a held identifier that
/// is absent fails with `UnresolvedReference` for that identifier
/// and kind.
pub proof fn lemma_reference_resolution(
    value: JsonView,
    kind: ApplicationCommandOptionType,
    name: Seq<char>,
    store: ResolvedView,
)
    requires
        kind == ApplicationCommandOptionType::User || kind
            == ApplicationCommandOptionType::Channel || kind
            == ApplicationCommandOptionType::Role,
    ensures
        spec_resolve(value, kind, name, store) is Ok <==> (ref_id_of(value) matches Some(id)
            && ref_table_contains(store, kind, id)),
        ref_id_of(value) matches Some(id) ==> (!ref_table_contains(store, kind, id)
            ==> spec_resolve(value, kind, name, store) == Err::<
            Option<crate::model::OptionValueView>,
            ErrorView,
        >(ErrorView::UnresolvedReference(id, ref_kind_of(kind)))),
{
}

/// Decoding is a function of the payload value alone: two decodes of
/// equal raw payloads denote the same result, so re-decoding a
/// payload yields a structurally equal record or the same error.
pub proof fn lemma_decode_deterministic(p1: JsonView, p2: JsonView)
    requires
        p1 == p2,
    ensures
        spec_decode_interaction(p1) == spec_decode_interaction(p2),
{
}

/// A decoded options sequence has one element per array element, in
/// input order: the i-th decoded option is the decode of the i-th
/// raw element.
pub proof fn lemma_options_decoded_in_order(
    elems: Seq<JsonView>,
    store: ResolvedView,
    os: Seq<OptionView>,
)
    requires
        spec_decode_options(elems, store) == Ok::<Seq<OptionView>, ErrorView>(os),
    ensures
        os.len() == elems.len(),
        forall|i: int|
            0 <= i < elems.len() ==> spec_decode_option(#[trigger] elems[i], store) == Ok::<
                OptionView,
                ErrorView,
            >(os[i]),
    decreases elems.len(),
{
    if elems.len() > 0 {
        match spec_decode_option(elems[0], store) {
            Ok(first) => match spec_decode_options(elems.drop_first(), store) {
                Ok(rest) => {
                    lemma_options_decoded_in_order(elems.drop_first(), store, rest);
                    assert forall|i: int|
                        0 <= i < elems.len() implies spec_decode_option(
                        #[trigger] elems[i],
                        store,
                    ) == Ok::<OptionView, ErrorView>(os[i]) by {
                        if i > 0 {
                            assert(elems.drop_first()[i - 1] == elems[i]);
                            assert(os[i] == rest[i - 1]);
                        }
                    }
                },
                Err(_) => {},
            },
            Err(_) => {},
        }
    }
}

/// An interaction kind field holding `1` decodes to `Ping`, `2` to
/// `ApplicationCommand`, and any other integer to `Unknown`, without
/// failing on the kind.
pub proof fn lemma_interaction_kind_values(n: u64)
    ensures
        spec_interaction_type_of(1) == InteractionType::Ping,
        spec_interaction_type_of(2) == InteractionType::ApplicationCommand,
        n != 1 && n != 2 ==> spec_interaction_type_of(n) == InteractionType::Unknown,
{
}

/// A successfully decoded payload whose `type` field held the
/// non-negative integer `n` has the kind `n` denotes.
pub proof fn lemma_decoded_kind(o: Seq<(Seq<char>, JsonView)>, n: u64, iv: InteractionView)
    requires
        lookup(o, "type"@) == Some(JsonView::UInt(n)),
        spec_decode_fields(o) == Ok::<InteractionView, ErrorView>(iv),
    ensures
        iv.kind == spec_interaction_type_of(n),
{
}

/// A successfully decoded payload whose `type` field held a negative
/// integer has kind `Unknown`.
pub proof fn lemma_decoded_kind_negative(o: Seq<(Seq<char>, JsonView)>, m: i64, iv: InteractionView)
    requires
        lookup(o, "type"@) == Some(JsonView::Int(m)),
        spec_decode_fields(o) == Ok::<InteractionView, ErrorView>(iv),
    ensures
        iv.kind == InteractionType::Unknown,
{
}

/// A command data payload without a `resolved` field decodes to the
/// store with all four mappings empty, not to an error on that
/// account.
pub proof fn lemma_absent_resolved_is_empty(v: JsonView, d: DataView)
    requires
        v is Obj,
        lookup(v->Obj_0, "resolved"@) is None,
        spec_decode_data(v) == Ok::<DataView, ErrorView>(d),
    ensures
        d.resolved == ResolvedView::empty(),
        d.resolved.users == Map::<u64, crate::model::UserView>::empty(),
        d.resolved.members == Map::<u64, crate::model::MemberView>::empty(),
        d.resolved.roles == Map::<u64, crate::model::RoleView>::empty(),
        d.resolved.channels == Map::<u64, crate::model::ChannelView>::empty(),
{
}

} // verus!
