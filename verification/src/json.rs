//! JSON values as the controller's session API returns them, and the
//! queries and rewrites the client makes on them.
//!
//! Objects keep their members in order; a member is found by the first
//! entry with its key (the decoder never produces two).

use vstd::prelude::*;
use crate::text::{chars_of, contains_lit, lower, owned, spec_contains, spec_lower, str_eq};

verus! {

/// A JSON number: a non-negative integer, a negative integer, or any other
/// number kept as its shortest decimal spelling.
#[derive(Debug)]
pub enum JsonNumber {
    PosInt(u64),
    NegInt(i64),
    Float(String),
}

/// A JSON value.
#[derive(Debug)]
pub enum JsonValue {
    Null,
    Bool(bool),
    Number(JsonNumber),
    Str(String),
    Array(Vec<JsonValue>),
    Object(Vec<(String, JsonValue)>),
}

/// What a JSON number denotes.
pub enum NumberView {
    PosInt(u64),
    NegInt(i64),
    Float(Seq<char>),
}

/// What a JSON value denotes: strings as character sequences, arrays and
/// objects as sequences.
pub enum JsonView {
    Null,
    Bool(bool),
    Number(NumberView),
    Str(Seq<char>),
    Array(Seq<JsonView>),
    Object(Seq<(Seq<char>, JsonView)>),
}

pub open spec fn number_view(n: JsonNumber) -> NumberView {
    match n {
        JsonNumber::PosInt(v) => NumberView::PosInt(v),
        JsonNumber::NegInt(v) => NumberView::NegInt(v),
        JsonNumber::Float(s) => NumberView::Float(s@),
    }
}

pub open spec fn json_view(v: JsonValue) -> JsonView
    decreases v,
{
    match v {
        JsonValue::Null => JsonView::Null,
        JsonValue::Bool(b) => JsonView::Bool(b),
        JsonValue::Number(n) => JsonView::Number(number_view(n)),
        JsonValue::Str(s) => JsonView::Str(s@),
        JsonValue::Array(items) => JsonView::Array(
            Seq::new(
                items@.len(),
                |i: int|
                    if 0 <= i < items@.len() {
                        json_view(items@[i])
                    } else {
                        JsonView::Null
                    },
            ),
        ),
        JsonValue::Object(entries) => JsonView::Object(entries_view(entries@)),
    }
}

/// The view of an object's members.
pub open spec fn entries_view(entries: Seq<(String, JsonValue)>) -> Seq<(Seq<char>, JsonView)>
    decreases entries,
{
    Seq::new(
        entries.len(),
        |i: int|
            if 0 <= i < entries.len() {
                (entries[i].0@, json_view(entries[i].1))
            } else {
                (Seq::empty(), JsonView::Null)
            },
    )
}

impl View for JsonValue {
    type V = JsonView;

    open spec fn view(&self) -> JsonView {
        json_view(*self)
    }
}

/// The member `key` of an object's members: the first entry with it.
pub open spec fn spec_member(entries: Seq<(Seq<char>, JsonView)>, key: Seq<char>) -> Option<JsonView>
    decreases entries.len(),
{
    if entries.len() == 0 {
        None
    } else if entries[0].0 == key {
        Some(entries[0].1)
    } else {
        spec_member(entries.drop_first(), key)
    }
}

/// `value.get(key)`: the member of an object, nothing for other values.
pub open spec fn spec_get(v: JsonView, key: Seq<char>) -> Option<JsonView> {
    match v {
        JsonView::Object(entries) => spec_member(entries, key),
        _ => None,
    }
}

/// The text of a string value.
pub open spec fn spec_as_str(v: Option<JsonView>) -> Option<Seq<char>> {
    match v {
        Some(JsonView::Str(s)) => Some(s),
        _ => None,
    }
}

/// The truth value of a boolean value.
pub open spec fn spec_as_bool(v: Option<JsonView>) -> Option<bool> {
    match v {
        Some(JsonView::Bool(b)) => Some(b),
        _ => None,
    }
}

/// The value of a non-negative integer.
pub open spec fn spec_as_u64(v: Option<JsonView>) -> Option<u64> {
    match v {
        Some(JsonView::Number(NumberView::PosInt(n))) => Some(n),
        _ => None,
    }
}

/// A copy of a value.
pub fn deep_clone(v: &JsonValue) -> (r: JsonValue)
    ensures
        r@ == v@,
    decreases v,
{
    match v {
        JsonValue::Null => JsonValue::Null,
        JsonValue::Bool(b) => JsonValue::Bool(*b),
        JsonValue::Number(n) => JsonValue::Number(
            match n {
                JsonNumber::PosInt(x) => JsonNumber::PosInt(*x),
                JsonNumber::NegInt(x) => JsonNumber::NegInt(*x),
                JsonNumber::Float(s) => JsonNumber::Float(s.clone()),
            },
        ),
        JsonValue::Str(s) => JsonValue::Str(s.clone()),
        JsonValue::Array(items) => {
            let mut out: Vec<JsonValue> = Vec::new();
            let mut i: usize = 0;
            while i < items.len()
                invariant
                    i <= items@.len(),
                    out@.len() == i,
                    *v == JsonValue::Array(*items),
                    forall|k: int| 0 <= k < i ==> (#[trigger] out@[k])@ == items@[k]@,
                decreases items@.len() - i,
            {
                proof {
                    vstd::std_specs::vec::axiom_vec_index_decreases(*items, i as int);
                    assert(decreases_to!(*v => (*v)->Array_0));
                }
                let c = deep_clone(&items[i]);
                out.push(c);
                i = i + 1;
            }
            let r = JsonValue::Array(out);
            proof {
                if let JsonView::Array(a) = r@ {
                    if let JsonView::Array(b) = v@ {
                        assert(a =~= b);
                    }
                }
            }
            r
        },
        JsonValue::Object(entries) => {
            let mut out: Vec<(String, JsonValue)> = Vec::new();
            let mut i: usize = 0;
            while i < entries.len()
                invariant
                    i <= entries@.len(),
                    out@.len() == i,
                    *v == JsonValue::Object(*entries),
                    forall|k: int|
                        0 <= k < i ==> (#[trigger] out@[k]).0@ == entries@[k].0@ && out@[k].1@
                            == entries@[k].1@,
                decreases entries@.len() - i,
            {
                proof {
                    vstd::std_specs::vec::axiom_vec_index_decreases(*entries, i as int);
                    assert(decreases_to!(*v => (*v)->Object_0));
                    assert(decreases_to!(entries@[i as int] => entries@[i as int].1));
                }
                let c = deep_clone(&entries[i].1);
                out.push((entries[i].0.clone(), c));
                i = i + 1;
            }
            assert(entries_view(out@) =~= entries_view(entries@));
            JsonValue::Object(out)
        },
    }
}

proof fn lemma_member_skip(entries: Seq<(Seq<char>, JsonView)>, key: Seq<char>, i: int)
    requires
        0 <= i <= entries.len(),
        forall|k: int| 0 <= k < i ==> (#[trigger] entries[k]).0 != key,
    ensures
        spec_member(entries, key) == spec_member(entries.skip(i), key),
    decreases i,
{
    if i > 0 {
        let rest = entries.drop_first();
        assert forall|k: int| 0 <= k < i - 1 implies (#[trigger] rest[k]).0 != key by {
            assert(rest[k] == entries[k + 1]);
        }
        lemma_member_skip(rest, key, i - 1);
        assert(rest.skip(i - 1) =~= entries.skip(i));
    } else {
        assert(entries.skip(0) =~= entries);
    }
}

/// `value.get(key)`; see [`spec_get`].
pub fn get<'a>(v: &'a JsonValue, key: &str) -> (r: Option<&'a JsonValue>)
    ensures
        match r {
            Some(x) => spec_get(v@, key@) == Some(x@),
            None => spec_get(v@, key@) is None,
        },
{
    match v {
        JsonValue::Object(entries) => {
            let ghost ev = entries_view(entries@);
            let mut i: usize = 0;
            while i < entries.len()
                invariant
                    i <= entries@.len(),
                    *v == JsonValue::Object(*entries),
                    ev == entries_view(entries@),
                    forall|k: int| 0 <= k < i ==> (#[trigger] ev[k]).0 != key@,
                decreases entries@.len() - i,
            {
                if str_eq(entries[i].0.as_str(), key) {
                    proof {
                        lemma_member_skip(ev, key@, i as int);
                        assert(v@ == JsonView::Object(ev));
                        assert(ev[i as int] == (entries@[i as int].0@, entries@[i as int].1@));
                        assert(ev.skip(i as int)[0] == ev[i as int]);
                    }
                    return Some(&entries[i].1);
                }
                i = i + 1;
            }
            proof {
                lemma_member_skip(ev, key@, i as int);
                assert(v@ == JsonView::Object(ev));
                assert(ev.skip(i as int).len() == 0);
            }
            None
        },
        _ => None,
    }
}

/// The text of the string member `key`, if there is one.
pub fn member_str<'a>(v: &'a JsonValue, key: &str) -> (r: Option<&'a String>)
    ensures
        match r {
            Some(s) => spec_as_str(spec_get(v@, key@)) == Some(s@),
            None => spec_as_str(spec_get(v@, key@)) is None,
        },
{
    match get(v, key) {
        Some(JsonValue::Str(s)) => Some(s),
        _ => None,
    }
}

/// The boolean member `key`, if there is one.
pub fn member_bool(v: &JsonValue, key: &str) -> (r: Option<bool>)
    ensures
        r == spec_as_bool(spec_get(v@, key@)),
{
    match get(v, key) {
        Some(JsonValue::Bool(b)) => Some(*b),
        _ => None,
    }
}

/// The non-negative integer member `key`, if there is one.
pub fn member_u64(v: &JsonValue, key: &str) -> (r: Option<u64>)
    ensures
        r == spec_as_u64(spec_get(v@, key@)),
{
    match get(v, key) {
        Some(JsonValue::Number(JsonNumber::PosInt(n))) => Some(*n),
        _ => None,
    }
}

/// Fragments that mark a member as secret, matched without regard to case.
pub open spec fn spec_should_redact(key: Seq<char>) -> bool {
    let k = spec_lower(key);
    ||| spec_contains(k, "private"@)
    ||| spec_contains(k, "password"@)
    ||| spec_contains(k, "secret"@)
    ||| spec_contains(k, "token"@)
    ||| spec_contains(k, "psk"@)
    ||| spec_contains(k, "shared_key"@)
    ||| spec_contains(k, "certificate"@)
    ||| spec_contains(k, "dh_key"@)
}

/// Whether a member named `key` holds a secret; see [`spec_should_redact`].
pub fn should_redact_field(key: &str) -> (r: bool)
    ensures
        r == spec_should_redact(key@),
{
    let k = lower(&chars_of(key));
    contains_lit(&k, "private") || contains_lit(&k, "password") || contains_lit(&k, "secret")
        || contains_lit(&k, "token") || contains_lit(&k, "psk") || contains_lit(&k, "shared_key")
        || contains_lit(&k, "certificate") || contains_lit(&k, "dh_key")
}

/// What a secret is replaced by.
pub open spec fn redaction_mark() -> Seq<char> {
    "***REDACTED***"@
}

/// A value with every secret member, at any depth, replaced by the mark.
pub open spec fn spec_redact(v: JsonView) -> JsonView
    decreases v,
{
    match v {
        JsonView::Object(entries) => JsonView::Object(
            Seq::new(
                entries.len(),
                |i: int|
                    if 0 <= i < entries.len() {
                        (
                            entries[i].0,
                            if spec_should_redact(entries[i].0) {
                                JsonView::Str(redaction_mark())
                            } else {
                                spec_redact(entries[i].1)
                            },
                        )
                    } else {
                        (Seq::empty(), JsonView::Null)
                    },
            ),
        ),
        JsonView::Array(items) => JsonView::Array(
            Seq::new(
                items.len(),
                |i: int|
                    if 0 <= i < items.len() {
                        spec_redact(items[i])
                    } else {
                        JsonView::Null
                    },
            ),
        ),
        _ => v,
    }
}

/// A copy of `v` with its secrets masked; see [`spec_redact`].
pub fn redact_sensitive_value(v: &JsonValue) -> (r: JsonValue)
    ensures
        r@ == spec_redact(v@),
    decreases v,
{
    match v {
        JsonValue::Object(entries) => {
            let mut out: Vec<(String, JsonValue)> = Vec::new();
            let mut i: usize = 0;
            let ghost ev = entries_view(entries@);
            while i < entries.len()
                invariant
                    i <= entries@.len(),
                    out@.len() == i,
                    *v == JsonValue::Object(*entries),
                    ev == entries_view(entries@),
                    forall|k: int|
                        0 <= k < i ==> (#[trigger] out@[k]).0@ == ev[k].0 && out@[k].1@ == (
                        if spec_should_redact(ev[k].0) {
                            JsonView::Str(redaction_mark())
                        } else {
                            spec_redact(ev[k].1)
                        }),
                decreases entries@.len() - i,
            {
                proof {
                    vstd::std_specs::vec::axiom_vec_index_decreases(*entries, i as int);
                    assert(decreases_to!(*v => (*v)->Object_0));
                    assert(decreases_to!(entries@[i as int] => entries@[i as int].1));
                }
                let value = if should_redact_field(entries[i].0.as_str()) {
                    JsonValue::Str(owned("***REDACTED***"))
                } else {
                    redact_sensitive_value(&entries[i].1)
                };
                out.push((entries[i].0.clone(), value));
                i = i + 1;
            }
            let r = JsonValue::Object(out);
            proof {
                assert(v@ == JsonView::Object(ev));
                assert(r@ == JsonView::Object(entries_view(out@)));
                assert(entries_view(out@).len() == out@.len());
                if let JsonView::Object(a) = r@ {
                    if let JsonView::Object(b) = spec_redact(v@) {
                        assert forall|k: int| 0 <= k < a.len() implies a[k] == b[k] by {
                            assert(a[k] == (out@[k].0@, out@[k].1@));
                        }
                        assert(a =~= b);
                    }
                }
            }
            r
        },
        JsonValue::Array(items) => {
            let mut out: Vec<JsonValue> = Vec::new();
            let mut i: usize = 0;
            while i < items.len()
                invariant
                    i <= items@.len(),
                    out@.len() == i,
                    *v == JsonValue::Array(*items),
                    forall|k: int| 0 <= k < i ==> (#[trigger] out@[k])@ == spec_redact(items@[k]@),
                decreases items@.len() - i,
            {
                proof {
                    vstd::std_specs::vec::axiom_vec_index_decreases(*items, i as int);
                    assert(decreases_to!(*v => (*v)->Array_0));
                }
                let c = redact_sensitive_value(&items[i]);
                out.push(c);
                i = i + 1;
            }
            let r = JsonValue::Array(out);
            proof {
                if let JsonView::Array(vi) = v@ {
                    assert(forall|k: int| 0 <= k < vi.len() ==> #[trigger] vi[k] == items@[k]@);
                    if let JsonView::Array(a) = r@ {
                        if let JsonView::Array(b) = spec_redact(v@) {
                            assert forall|k: int| 0 <= k < a.len() implies a[k] == b[k] by {
                                assert(a[k] == out@[k]@);
                                assert(b[k] == spec_redact(vi[k]));
                            }
                            assert(a =~= b);
                        }
                    }
                }
            }
            r
        },
        _ => deep_clone(v),
    }
}

/// Every secret member, at any depth, holds the mark.
pub open spec fn spec_masked(v: JsonView) -> bool
    decreases v,
{
    match v {
        JsonView::Object(entries) => forall|i: int|
            0 <= i < entries.len() ==> if spec_should_redact((#[trigger] entries[i]).0) {
                entries[i].1 == JsonView::Str(redaction_mark())
            } else {
                spec_masked(entries[i].1)
            },
        JsonView::Array(items) => forall|i: int| 0 <= i < items.len() ==> spec_masked(#[trigger] items[i]),
        _ => true,
    }
}

/// Redaction leaves no secret behind, however deep it sits.
pub proof fn law_redaction_masks_every_secret(v: JsonView)
    ensures
        spec_masked(spec_redact(v)),
    decreases v,
{
    match v {
        JsonView::Object(entries) => {
            let r = spec_redact(v);
            if let JsonView::Object(out) = r {
                assert forall|i: int| 0 <= i < out.len() implies if spec_should_redact((#[trigger] out[i]).0) {
                    out[i].1 == JsonView::Str(redaction_mark())
                } else {
                    spec_masked(out[i].1)
                } by {
                    if !spec_should_redact(entries[i].0) {
                        assert(decreases_to!(v => entries[i].1));
                        law_redaction_masks_every_secret(entries[i].1);
                    }
                }
            }
        },
        JsonView::Array(items) => {
            let r = spec_redact(v);
            if let JsonView::Array(out) = r {
                assert forall|i: int| 0 <= i < out.len() implies spec_masked(#[trigger] out[i]) by {
                    assert(decreases_to!(v => items[i]));
                    law_redaction_masks_every_secret(items[i]);
                }
            }
        },
        _ => {},
    }
}

/// Redacting twice is redacting once.
pub proof fn law_redaction_is_idempotent(v: JsonView)
    ensures
        spec_redact(spec_redact(v)) == spec_redact(v),
    decreases v,
{
    match v {
        JsonView::Object(entries) => {
            if let JsonView::Object(once) = spec_redact(v) {
                if let JsonView::Object(twice) = spec_redact(spec_redact(v)) {
                    assert forall|i: int| 0 <= i < once.len() implies twice[i] == once[i] by {
                        if !spec_should_redact(entries[i].0) {
                            assert(decreases_to!(v => entries[i].1));
                            law_redaction_is_idempotent(entries[i].1);
                        }
                    }
                    assert(twice =~= once);
                }
            }
        },
        JsonView::Array(items) => {
            if let JsonView::Array(once) = spec_redact(v) {
                if let JsonView::Array(twice) = spec_redact(spec_redact(v)) {
                    assert forall|i: int| 0 <= i < once.len() implies twice[i] == once[i] by {
                        assert(decreases_to!(v => items[i]));
                        law_redaction_is_idempotent(items[i]);
                    }
                    assert(twice =~= once);
                }
            }
        },
        _ => {},
    }
}

} // verus!
