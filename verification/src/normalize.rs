//! The normalization pass: before any typed decode, the payload's
//! guild identifier is propagated into the nested objects the server
//! leaves unscoped (the invoking `member` and every entry of
//! `data.resolved.roles` and `data.resolved.channels`).

use vstd::prelude::*;
use crate::json::{
    clone_value, jview_entries, lookup, obj_find, obj_index, obj_with_key_set, parse_u64,
    set_key, spec_parse_u64, JsonValue, JsonView,
};

verus! {

/// The guild identifier the normalization pass propagates: the
/// payload's top-level `guild_id`, when it is a decimal identifier
/// string.
pub open spec fn guild_context(p: JsonView) -> Option<u64> {
    match p {
        JsonView::Obj(o) => match lookup(o, "guild_id"@) {
            Some(JsonView::Str(s)) => spec_parse_u64(s),
            _ => None,
        },
        _ => None,
    }
}

/// `v` with its `guild_id` field set to `g`, when `v` is an object;
/// other values are left as received.
pub open spec fn with_guild(v: JsonView, g: u64) -> JsonView {
    match v {
        JsonView::Obj(o) => JsonView::Obj(set_key(o, "guild_id"@, JsonView::UInt(g))),
        _ => v,
    }
}

/// A resolved mapping with `guild_id` set on every object entry.
pub open spec fn norm_table(v: JsonView, g: u64) -> JsonView {
    match v {
        JsonView::Obj(o) => JsonView::Obj(
            Seq::new(o.len(), |i: int| (o[i].0, with_guild(o[i].1, g))),
        ),
        _ => v,
    }
}

/// A `resolved` object with `g` injected into its role and channel
/// tables.
pub open spec fn norm_resolved(v: JsonView, g: u64) -> JsonView {
    match v {
        JsonView::Obj(o) => {
            let o1 = match lookup(o, "roles"@) {
                Some(rv) => set_key(o, "roles"@, norm_table(rv, g)),
                None => o,
            };
            let o2 = match lookup(o1, "channels"@) {
                Some(cv) => set_key(o1, "channels"@, norm_table(cv, g)),
                None => o1,
            };
            JsonView::Obj(o2)
        },
        _ => v,
    }
}

/// A `data` object with `g` injected into its `resolved` table.
pub open spec fn norm_data(v: JsonView, g: u64) -> JsonView {
    match v {
        JsonView::Obj(o) => match lookup(o, "resolved"@) {
            Some(rv) => JsonView::Obj(set_key(o, "resolved"@, norm_resolved(rv, g))),
            None => v,
        },
        _ => v,
    }
}

/// What the normalization pass yields.  With no usable top-level
/// `guild_id` the payload is left exactly as received; otherwise the
/// identifier is set on the `member` object and on every entry of
/// `data.resolved.roles` and `data.resolved.channels`.
pub open spec fn spec_normalize(p: JsonView) -> JsonView {
    match guild_context(p) {
        Some(g) => match p {
            JsonView::Obj(o) => {
                let o1 = match lookup(o, "member"@) {
                    Some(mv) => set_key(o, "member"@, with_guild(mv, g)),
                    None => o,
                };
                let o2 = match lookup(o1, "data"@) {
                    Some(dv) => set_key(o1, "data"@, norm_data(dv, g)),
                    None => o1,
                };
                JsonView::Obj(o2)
            },
            _ => p,
        },
        None => p,
    }
}

/// Set `guild_id` to `g` on `v`, when `v` is an object.
fn inject_guild(v: &JsonValue, g: u64) -> (r: JsonValue)
    ensures
        r@ == with_guild(v@, g),
{
    match v {
        JsonValue::Obj(entries) => JsonValue::Obj(
            obj_with_key_set(entries, "guild_id", JsonValue::UInt(g)),
        ),
        _ => clone_value(v),
    }
}

/// Set `guild_id` to `g` on every object entry of a resolved mapping.
#[verifier::loop_isolation(false)]
fn inject_guild_table(v: &JsonValue, g: u64) -> (r: JsonValue)
    ensures
        r@ == norm_table(v@, g),
{
    broadcast use crate::json::lemma_jview_entries;

    match v {
        JsonValue::Obj(entries) => {
            let ghost ev = jview_entries(entries@);
            let ghost target = Seq::new(ev.len(), |i: int| (ev[i].0, with_guild(ev[i].1, g)));
            let mut out: Vec<(String, JsonValue)> = Vec::new();
            let mut i: usize = 0;
            while i < entries.len()
                invariant
                    i <= entries.len(),
                    out@.len() == i,
                    jview_entries(out@) == target.take(i as int),
                decreases entries.len() - i,
            {
                let k = entries[i].0.clone();
                let nv = inject_guild(&entries[i].1, g);
                let ghost prev = out@;
                out.push((k, nv));
                proof {
                    assert(out@.drop_last() =~= prev);
                    assert(jview_entries(out@) =~= target.take(i as int + 1));
                }
                i += 1;
            }
            proof {
                assert(target.take(target.len() as int) =~= target);
            }
            JsonValue::Obj(out)
        },
        _ => clone_value(v),
    }
}

/// Inject `g` into the role and channel tables of a `resolved` value.
fn normalize_resolved(v: &JsonValue, g: u64) -> (r: JsonValue)
    ensures
        r@ == norm_resolved(v@, g),
{
    broadcast use crate::json::lemma_jview_entries;

    match v {
        JsonValue::Obj(entries) => {
            let step1: Vec<(String, JsonValue)> = match obj_index(entries, "roles") {
                Some(i) => {
                    let nt = inject_guild_table(&entries[i].1, g);
                    obj_with_key_set(entries, "roles", nt)
                },
                None => crate::json::clone_entries(entries),
            };
            let step2: Vec<(String, JsonValue)> = match obj_index(&step1, "channels") {
                Some(i) => {
                    let nt = inject_guild_table(&step1[i].1, g);
                    obj_with_key_set(&step1, "channels", nt)
                },
                None => step1,
            };
            JsonValue::Obj(step2)
        },
        _ => clone_value(v),
    }
}

/// Inject `g` into the `resolved` table of a `data` value.
fn normalize_data(v: &JsonValue, g: u64) -> (r: JsonValue)
    ensures
        r@ == norm_data(v@, g),
{
    broadcast use crate::json::lemma_jview_entries;

    match v {
        JsonValue::Obj(entries) => match obj_index(entries, "resolved") {
            Some(i) => {
                let nr = normalize_resolved(&entries[i].1, g);
                JsonValue::Obj(obj_with_key_set(entries, "resolved", nr))
            },
            None => clone_value(v),
        },
        _ => clone_value(v),
    }
}

/// The normalization pass.  It inspects the top-level `guild_id` and,
/// when present as a decimal identifier string, sets it on the
/// `member` object and on every entry of `data.resolved.roles` and
/// `data.resolved.channels`; without one the payload is returned
/// exactly as received.  The pass itself never fails: nested
/// structures that are absent or not objects are skipped.
pub fn normalize_payload(p: &JsonValue) -> (r: JsonValue)
    ensures
        r@ == spec_normalize(p@),
{
    broadcast use crate::json::lemma_jview_entries;

    let gctx: Option<u64> = match p {
        JsonValue::Obj(entries) => match obj_find(entries, "guild_id") {
            Some(gv) => match gv {
                JsonValue::Str(s) => parse_u64(s.as_str()),
                _ => None,
            },
            _ => None,
        },
        _ => None,
    };
    match gctx {
        None => clone_value(p),
        Some(g) => match p {
            JsonValue::Obj(entries) => {
                let step1: Vec<(String, JsonValue)> = match obj_index(entries, "member") {
                    Some(i) => {
                        let nm = inject_guild(&entries[i].1, g);
                        obj_with_key_set(entries, "member", nm)
                    },
                    None => crate::json::clone_entries(entries),
                };
                let step2: Vec<(String, JsonValue)> = match obj_index(&step1, "data") {
                    Some(i) => {
                        let nd = normalize_data(&step1[i].1, g);
                        obj_with_key_set(&step1, "data", nd)
                    },
                    None => step1,
                };
                JsonValue::Obj(step2)
            },
            _ => clone_value(p),
        },
    }
}

} // verus!
