//! A model of the JSON payloads the decoder works on.
//!
//! `JsonValue` carries a payload as plain data: numbers are split into
//! the unsigned, negative and non-integral cases (no decoder accepts a
//! non-integral number, so its magnitude is not carried), and objects
//! keep their entries in wire order.  `JsonView` is the mathematical
//! shape of such a value; all contracts in this crate are stated over
//! it.

use vstd::prelude::*;
use vstd::string::StrSliceExecFns;

verus! {

/// The mathematical shape of a JSON value; the view of [`JsonValue`].
pub enum JsonView {
    Null,
    Bool(bool),
    UInt(u64),
    Int(i64),
    Float,
    Str(Seq<char>),
    Arr(Seq<JsonView>),
    Obj(Seq<(Seq<char>, JsonView)>),
}

/// A JSON value.  `UInt` holds non-negative integers, `Int` negative
/// ones, and `Float` stands for a number that is not an integer.
#[derive(Debug, PartialEq)]
pub enum JsonValue {
    Null,
    Bool(bool),
    UInt(u64),
    Int(i64),
    Float,
    Str(String),
    Arr(Vec<JsonValue>),
    Obj(Vec<(String, JsonValue)>),
}

/// The view of a JSON value, recursing through arrays and objects.
pub open spec fn jview(v: JsonValue) -> JsonView
    decreases v,
{
    match v {
        JsonValue::Null => JsonView::Null,
        JsonValue::Bool(b) => JsonView::Bool(b),
        JsonValue::UInt(n) => JsonView::UInt(n),
        JsonValue::Int(n) => JsonView::Int(n),
        JsonValue::Float => JsonView::Float,
        JsonValue::Str(s) => JsonView::Str(s@),
        JsonValue::Arr(items) => JsonView::Arr(jview_seq(items@)),
        JsonValue::Obj(entries) => JsonView::Obj(jview_entries(entries@)),
    }
}

/// The views of a sequence of JSON values, element by element.
pub open spec fn jview_seq(s: Seq<JsonValue>) -> Seq<JsonView>
    decreases s,
{
    if s.len() == 0 {
        Seq::empty()
    } else {
        jview_seq(s.drop_last()).push(jview(s.last()))
    }
}

/// The views of a sequence of object entries, entry by entry.
pub open spec fn jview_entries(s: Seq<(String, JsonValue)>) -> Seq<(Seq<char>, JsonView)>
    decreases s,
{
    if s.len() == 0 {
        Seq::empty()
    } else {
        jview_entries(s.drop_last()).push((s.last().0@, jview(s.last().1)))
    }
}

impl View for JsonValue {
    type V = JsonView;

    open spec fn view(&self) -> JsonView {
        jview(*self)
    }
}

pub broadcast proof fn lemma_jview_seq(s: Seq<JsonValue>)
    ensures
        (#[trigger] jview_seq(s)).len() == s.len(),
        forall|i: int| 0 <= i < s.len() ==> jview_seq(s)[i] == jview(s[i]),
    decreases s.len(),
{
    if s.len() > 0 {
        lemma_jview_seq(s.drop_last());
    }
}

pub broadcast proof fn lemma_jview_entries(s: Seq<(String, JsonValue)>)
    ensures
        (#[trigger] jview_entries(s)).len() == s.len(),
        forall|i: int| 0 <= i < s.len() ==> jview_entries(s)[i] == (s[i].0@, jview(s[i].1)),
    decreases s.len(),
{
    if s.len() > 0 {
        lemma_jview_entries(s.drop_last());
    }
}

/// The value of the first entry of `o` whose key is `key`, if any.
pub open spec fn lookup(o: Seq<(Seq<char>, JsonView)>, key: Seq<char>) -> Option<JsonView>
    decreases o.len(),
{
    if o.len() == 0 {
        None
    } else if o[0].0 == key {
        Some(o[0].1)
    } else {
        lookup(o.drop_first(), key)
    }
}

/// `o` with the first entry keyed `key` replaced by `value`, or with
/// `(key, value)` appended when no entry has that key.
pub open spec fn set_key(
    o: Seq<(Seq<char>, JsonView)>,
    key: Seq<char>,
    value: JsonView,
) -> Seq<(Seq<char>, JsonView)>
    decreases o.len(),
{
    if o.len() == 0 {
        seq![(key, value)]
    } else if o[0].0 == key {
        seq![(key, value)] + o.drop_first()
    } else {
        seq![o[0]] + set_key(o.drop_first(), key, value)
    }
}

pub proof fn lemma_lookup_set_same(
    o: Seq<(Seq<char>, JsonView)>,
    key: Seq<char>,
    value: JsonView,
)
    ensures
        lookup(set_key(o, key, value), key) == Some(value),
    decreases o.len(),
{
    if o.len() > 0 && o[0].0 != key {
        lemma_lookup_set_same(o.drop_first(), key, value);
        assert((seq![o[0]] + set_key(o.drop_first(), key, value)).drop_first()
            =~= set_key(o.drop_first(), key, value));
    }
}

pub proof fn lemma_lookup_set_other(
    o: Seq<(Seq<char>, JsonView)>,
    key: Seq<char>,
    value: JsonView,
    other: Seq<char>,
)
    requires
        other != key,
    ensures
        lookup(set_key(o, key, value), other) == lookup(o, other),
    decreases o.len(),
{
    reveal_with_fuel(lookup, 3);
    if o.len() == 0 {
        assert(seq![(key, value)][0] == (key, value));
        assert(seq![(key, value)].drop_first() =~= Seq::<(Seq<char>, JsonView)>::empty());
    } else if o[0].0 == key {
        assert((seq![(key, value)] + o.drop_first())[0] == (key, value));
        assert((seq![(key, value)] + o.drop_first()).drop_first() =~= o.drop_first());
    } else {
        lemma_lookup_set_other(o.drop_first(), key, value, other);
        assert((seq![o[0]] + set_key(o.drop_first(), key, value))[0] == o[0]);
        assert((seq![o[0]] + set_key(o.drop_first(), key, value)).drop_first()
            =~= set_key(o.drop_first(), key, value));
    }
}

/// A found entry is structurally below the entry sequence that holds
/// it; this justifies recursion into looked-up sub-values.
pub proof fn lemma_lookup_decreases(
    o: Seq<(Seq<char>, JsonView)>,
    key: Seq<char>,
    found: JsonView,
)
    requires
        lookup(o, key) == Some(found),
    ensures
        decreases_to!(o => found),
    decreases o.len(),
{
    if o[0].0 == key {
        assert(decreases_to!(o => o[0]));
        assert(decreases_to!(o[0] => o[0].1));
    } else {
        lemma_lookup_decreases(o.drop_first(), key, found);
        assert(o.drop_first() =~= o.subrange(1, o.len() as int));
        assert(decreases_to!(o => o.subrange(1, o.len() as int)));
    }
}

/// Skipping entries whose key is not `key` leaves the lookup result
/// unchanged.
pub proof fn lemma_lookup_skip(o: Seq<(Seq<char>, JsonView)>, key: Seq<char>, i: int)
    requires
        0 <= i <= o.len(),
        forall|j: int| 0 <= j < i ==> o[j].0 != key,
    ensures
        lookup(o, key) == lookup(o.skip(i), key),
    decreases i,
{
    if i == 0 {
        assert(o.skip(0) =~= o);
    } else {
        lemma_lookup_skip(o, key, i - 1);
        assert(o.skip(i - 1).drop_first() =~= o.skip(i));
    }
}

/// Character `c` is a decimal digit.
pub open spec fn is_digit(c: char) -> bool {
    48 <= c as u32 <= 57
}

/// The numeric value of a digit character.
pub open spec fn digit_val(c: char) -> int {
    c as u32 - 48
}

/// All characters of `s` are decimal digits.
pub open spec fn all_digits(s: Seq<char>) -> bool {
    forall|i: int| 0 <= i < s.len() ==> is_digit(#[trigger] s[i])
}

/// The number denoted by a sequence of digit characters.
pub open spec fn digits_val(s: Seq<char>) -> int
    decreases s.len(),
{
    if s.len() == 0 {
        0
    } else {
        digits_val(s.drop_last()) * 10 + digit_val(s.last())
    }
}

/// What parsing a decimal identifier string yields: the denoted number,
/// provided the string is non-empty, all digits, and fits in a `u64`.
pub open spec fn spec_parse_u64(s: Seq<char>) -> Option<u64> {
    if s.len() > 0 && all_digits(s) && 0 <= digits_val(s) <= u64::MAX {
        Some(digits_val(s) as u64)
    } else {
        None
    }
}

/// Appending further digits can only grow the denoted number.
proof fn lemma_digits_val_grows(s: Seq<char>, i: int)
    requires
        0 <= i <= s.len(),
        0 <= digits_val(s.take(i)),
        forall|j: int| i <= j < s.len() ==> is_digit(#[trigger] s[j]),
    ensures
        digits_val(s) >= digits_val(s.take(i)),
    decreases s.len() - i,
{
    if i == s.len() {
        assert(s.take(i) =~= s);
    } else {
        assert(s.take(i + 1).drop_last() =~= s.take(i));
        assert(s.take(i + 1).last() == s[i]);
        lemma_digits_val_grows(s, i + 1);
    }
}

/// Parse a decimal `u64` from a string: digits only, no sign, and the
/// value must fit.
pub fn parse_u64(s: &str) -> (r: Option<u64>)
    ensures
        r == spec_parse_u64(s@),
{
    let n = s.unicode_len();
    if n == 0 {
        return None;
    }
    let mut acc: u64 = 0;
    let mut i: usize = 0;
    while i < n
        invariant
            n == s@.len(),
            0 < n,
            i <= n,
            all_digits(s@.take(i as int)),
            acc == digits_val(s@.take(i as int)),
        decreases n - i,
    {
        let c = s.get_char(i);
        let u = c as u32;
        if u < 48 || u > 57 {
            proof {
                assert(!is_digit(s@[i as int]));
            }
            return None;
        }
        let d = (u - 48) as u64;
        proof {
            assert(s@.take(i as int + 1).drop_last() =~= s@.take(i as int));
            assert(s@.take(i as int + 1).last() == s@[i as int]);
        }
        if acc > u64::MAX / 10 || (acc == u64::MAX / 10 && d > u64::MAX % 10) {
            proof {
                assert(digits_val(s@.take(i as int + 1)) == acc * 10 + d);
                assert(acc * 10 + d > u64::MAX);
                if all_digits(s@) {
                    lemma_digits_val_grows(s@, i as int + 1);
                }
            }
            return None;
        }
        acc = acc * 10 + d;
        i += 1;
    }
    proof {
        assert(s@.take(n as int) =~= s@);
    }
    Some(acc)
}

/// String slice equality, stated over the character sequences.
pub fn str_eq(a: &str, b: &str) -> (r: bool)
    ensures
        r == (a@ == b@),
{
    let owned_a = a.to_owned();
    let owned_b = b.to_owned();
    owned_a == owned_b
}

/// Find the first entry of `entries` whose key is `key`; agrees with
/// [`lookup`] on the entries' view.
#[verifier::loop_isolation(false)]
pub fn obj_find<'a>(entries: &'a Vec<(String, JsonValue)>, key: &str) -> (r: Option<
    &'a JsonValue,
>)
    ensures
        match r {
            Some(v) => lookup(jview_entries(entries@), key@) == Some(jview(*v)),
            None => lookup(jview_entries(entries@), key@) is None,
        },
{
    broadcast use lemma_jview_entries;

    let ghost ev = jview_entries(entries@);
    let mut i: usize = 0;
    while i < entries.len()
        invariant
            i <= entries.len(),
            ev == jview_entries(entries@),
            forall|j: int| 0 <= j < i ==> ev[j].0 != key@,
        decreases entries.len() - i,
    {
        if str_eq(entries[i].0.as_str(), key) {
            proof {
                lemma_lookup_skip(ev, key@, i as int);
                assert(ev.skip(i as int)[0] == ev[i as int]);
            }
            return Some(&entries[i].1);
        }
        i += 1;
    }
    proof {
        lemma_lookup_skip(ev, key@, i as int);
        assert(ev.skip(i as int) =~= Seq::<(Seq<char>, JsonView)>::empty());
    }
    None
}

/// Where [`set_key`] places its entry when the key is already
/// present: at the first entry bearing it.
pub proof fn lemma_set_key_first(
    o: Seq<(Seq<char>, JsonView)>,
    key: Seq<char>,
    value: JsonView,
    i: int,
)
    requires
        0 <= i < o.len(),
        o[i].0 == key,
        forall|j: int| 0 <= j < i ==> o[j].0 != key,
    ensures
        set_key(o, key, value) =~= o.update(i, (key, value)),
    decreases i,
{
    if i == 0 {
        assert(set_key(o, key, value) =~= o.update(0, (key, value)));
    } else {
        lemma_set_key_first(o.drop_first(), key, value, i - 1);
        assert(set_key(o, key, value)
            =~= seq![o[0]] + o.drop_first().update(i - 1, (key, value)));
        assert(seq![o[0]] + o.drop_first().update(i - 1, (key, value))
            =~= o.update(i, (key, value)));
    }
}

/// Where [`set_key`] places its entry when the key is absent: at the
/// end.
pub proof fn lemma_set_key_absent(o: Seq<(Seq<char>, JsonView)>, key: Seq<char>, value: JsonView)
    requires
        forall|j: int| 0 <= j < o.len() ==> (#[trigger] o[j]).0 != key,
    ensures
        set_key(o, key, value) =~= o.push((key, value)),
    decreases o.len(),
{
    if o.len() == 0 {
        assert(set_key(o, key, value) =~= o.push((key, value)));
    } else {
        lemma_set_key_absent(o.drop_first(), key, value);
        assert(set_key(o, key, value) =~= seq![o[0]] + o.drop_first().push((key, value)));
        assert(seq![o[0]] + o.drop_first().push((key, value)) =~= o.push((key, value)));
    }
}

/// The position of the first entry of `entries` whose key is `key`.
#[verifier::loop_isolation(false)]
pub fn obj_index(entries: &Vec<(String, JsonValue)>, key: &str) -> (r: Option<usize>)
    ensures
        match r {
            Some(i) => {
                &&& i < entries@.len()
                &&& jview_entries(entries@)[i as int].0 == key@
                &&& forall|j: int|
                    0 <= j < i ==> (#[trigger] jview_entries(entries@)[j]).0 != key@
                &&& lookup(jview_entries(entries@), key@)
                    == Some(jview_entries(entries@)[i as int].1)
            },
            None => {
                &&& lookup(jview_entries(entries@), key@) is None
                &&& forall|j: int|
                    0 <= j < entries@.len()
                        ==> (#[trigger] jview_entries(entries@)[j]).0 != key@
            },
        },
{
    broadcast use lemma_jview_entries;

    let ghost ev = jview_entries(entries@);
    let mut i: usize = 0;
    while i < entries.len()
        invariant
            i <= entries.len(),
            forall|j: int| 0 <= j < i ==> (#[trigger] ev[j]).0 != key@,
        decreases entries.len() - i,
    {
        if str_eq(entries[i].0.as_str(), key) {
            proof {
                lemma_lookup_skip(ev, key@, i as int);
                assert(ev.skip(i as int)[0] == ev[i as int]);
            }
            return Some(i);
        }
        i += 1;
    }
    proof {
        lemma_lookup_skip(ev, key@, i as int);
        assert(ev.skip(i as int) =~= Seq::<(Seq<char>, JsonView)>::empty());
    }
    None
}

/// A copy of `entries` with the first entry keyed `key` replaced by
/// `value`, or with `(key, value)` appended when no entry has that
/// key; agrees with [`set_key`] on the views.
#[verifier::loop_isolation(false)]
pub fn obj_with_key_set(
    entries: &Vec<(String, JsonValue)>,
    key: &str,
    value: JsonValue,
) -> (r: Vec<(String, JsonValue)>)
    ensures
        jview_entries(r@) == set_key(jview_entries(entries@), key@, jview(value)),
{
    broadcast use lemma_jview_entries;

    let ghost ev = jview_entries(entries@);
    let ghost target = set_key(ev, key@, jview(value));
    let idx = obj_index(entries, key);
    match idx {
        Some(fi) => {
            proof {
                lemma_set_key_first(ev, key@, jview(value), fi as int);
            }
            let mut out: Vec<(String, JsonValue)> = Vec::new();
            let mut i: usize = 0;
            while i < entries.len()
                invariant
                    i <= entries.len(),
                    out@.len() == i,
                    fi < entries@.len(),
                    target == set_key(ev, key@, jview(value)),
                    target =~= ev.update(fi as int, (key@, jview(value))),
                    jview_entries(out@) == target.take(i as int),
                decreases entries.len() - i,
            {
                let ghost prev = out@;
                if i == fi {
                    let k = entries[i].0.clone();
                    proof {
                        assert(k@ == key@);
                    }
                    let v = clone_value(&value);
                    out.push((k, v));
                } else {
                    let k = entries[i].0.clone();
                    let v = clone_value(&entries[i].1);
                    out.push((k, v));
                }
                proof {
                    assert(out@.drop_last() =~= prev);
                    assert(jview_entries(out@)
                        == jview_entries(prev).push(jview_entries(out@).last()));
                    assert(jview_entries(out@) =~= target.take(i as int + 1));
                }
                i += 1;
            }
            proof {
                assert(target.take(target.len() as int) =~= target);
            }
            out
        },
        None => {
            proof {
                lemma_set_key_absent(ev, key@, jview(value));
            }
            let mut out = clone_entries(entries);
            let ghost prev = out@;
            out.push((key.to_owned(), value));
            proof {
                assert(out@.drop_last() =~= prev);
                assert(jview_entries(out@)
                    == jview_entries(prev).push((key@, jview(value))));
                assert(jview_entries(out@) =~= target);
            }
            out
        },
    }
}

/// A structural copy of a JSON value, equal to the original in view.
pub fn clone_value(v: &JsonValue) -> (r: JsonValue)
    ensures
        r@ == v@,
    decreases *v, 1int,
{
    match v {
        JsonValue::Null => JsonValue::Null,
        JsonValue::Bool(b) => JsonValue::Bool(*b),
        JsonValue::UInt(n) => JsonValue::UInt(*n),
        JsonValue::Int(n) => JsonValue::Int(*n),
        JsonValue::Float => JsonValue::Float,
        JsonValue::Str(s) => JsonValue::Str(s.clone()),
        JsonValue::Arr(items) => {
            proof {
                assert(decreases_to!(*v => (*v)->Arr_0));
                assert((*v)->Arr_0 == *items);
            }
            JsonValue::Arr(clone_items(items))
        },
        JsonValue::Obj(entries) => {
            proof {
                assert(decreases_to!(*v => (*v)->Obj_0));
                assert((*v)->Obj_0 == *entries);
            }
            JsonValue::Obj(clone_entries(entries))
        },
    }
}

/// A structural copy of a sequence of JSON values.
#[verifier::loop_isolation(false)]
pub fn clone_items(items: &Vec<JsonValue>) -> (r: Vec<JsonValue>)
    ensures
        jview_seq(r@) == jview_seq(items@),
    decreases *items, 0int,
{
    broadcast use lemma_jview_seq;

    let mut out: Vec<JsonValue> = Vec::new();
    let mut i: usize = 0;
    while i < items.len()
        invariant
            i <= items.len(),
            out@.len() == i,
            jview_seq(out@) == jview_seq(items@).take(i as int),
        decreases items.len() - i,
    {
        proof {
            assert(decreases_to!(*items => items[i as int]));
        }
        let item = clone_value(&items[i]);
        let ghost prev = out@;
        out.push(item);
        proof {
            assert(out@.drop_last() =~= prev);
            assert(out@.last() == item);
            assert(jview_seq(out@) == jview_seq(prev).push(jview(item)));
            assert(jview(item) == jview_seq(items@)[i as int]);
            assert(jview_seq(out@) =~= jview_seq(items@).take(i as int + 1));
        }
        i += 1;
    }
    proof {
        assert(jview_seq(items@).take(items@.len() as int) =~= jview_seq(items@));
    }
    out
}

/// A structural copy of a sequence of object entries.
#[verifier::loop_isolation(false)]
pub fn clone_entries(entries: &Vec<(String, JsonValue)>) -> (r: Vec<(String, JsonValue)>)
    ensures
        jview_entries(r@) == jview_entries(entries@),
    decreases *entries, 0int,
{
    broadcast use lemma_jview_entries;

    let mut out: Vec<(String, JsonValue)> = Vec::new();
    let mut i: usize = 0;
    while i < entries.len()
        invariant
            i <= entries.len(),
            out@.len() == i,
            jview_entries(out@) == jview_entries(entries@).take(i as int),
        decreases entries.len() - i,
    {
        proof {
            assert(decreases_to!(*entries => entries[i as int]));
            assert(decreases_to!(entries[i as int] => entries[i as int].1));
        }
        let key = entries[i].0.clone();
        let val = clone_value(&entries[i].1);
        let ghost prev = out@;
        out.push((key, val));
        proof {
            assert(out@.drop_last() =~= prev);
            assert(out@.last() == (key, val));
            assert(jview_entries(out@) == jview_entries(prev).push((key@, jview(val))));
            assert((key@, jview(val)) == jview_entries(entries@)[i as int]);
            assert(jview_entries(out@) =~= jview_entries(entries@).take(i as int + 1));
        }
        i += 1;
    }
    proof {
        assert(jview_entries(entries@).take(entries@.len() as int) =~= jview_entries(entries@));
    }
    out
}

} // verus!
