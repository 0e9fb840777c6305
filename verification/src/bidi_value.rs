//! Conversion of BiDi remote values into plain JSON.
//!
//! BiDi describes each value by its type: `{"type": "number", "value": 4}`,
//! `{"type": "object", "value": [["key", {"type": "string", "value": "val"}]]}`.

use vstd::prelude::*;
use crate::ieee::{number_as_double, double_rounded};
use crate::json::{Json, JsonNumber, JsonV, items_view, member_insert, members_insert, members_view, member_lookup, lemma_array_view, lemma_object_view};

verus! {

/// Looking up a member yields a part of the object.
pub proof fn lemma_get_decreases(v: JsonV, key: Seq<char>)
    ensures
        v.get(key) matches Some(w) ==> decreases_to!(v => w),
{
    if let JsonV::Object(members) = v {
        lemma_lookup_index(members, key);
        if let Some(w) = member_lookup(members, key) {
            let i = choose|i: int| 0 <= i < members.len() && members[i].1 == w;
            assert(decreases_to!(v => members));
            assert(decreases_to!(members => members[i]));
            assert(decreases_to!(members[i] => members[i].1));
        }
    }
}

proof fn lemma_lookup_index(members: Seq<(Seq<char>, JsonV)>, key: Seq<char>)
    ensures
        member_lookup(members, key) matches Some(w) ==> exists|i: int|
            0 <= i < members.len() && members[i].1 == w,
    decreases members.len(),
{
    if members.len() > 0 && members[0].0 != key {
        lemma_lookup_index(members.drop_first(), key);
        if let Some(w) = member_lookup(members, key) {
            let i = choose|i: int| 0 <= i < members.drop_first().len() && members.drop_first()[i].1 == w;
            assert(members[i + 1].1 == w);
        }
    }
}

/// The plain JSON of a BiDi remote value: strings and booleans as they are;
/// numbers as they read back from a double (integral ones as integers);
/// arrays and objects converted member by member; anything else `null`.
pub open spec fn bidi_value(remote: JsonV) -> JsonV
    decreases remote, 0nat,
{
    let kind = remote.field("type"@).as_str();
    if kind == Some("string"@) || kind == Some("boolean"@) {
        remote.field("value"@)
    } else if kind == Some("number"@) {
        match remote.field("value"@) {
            JsonV::Number(n) => match number_as_double(n) {
                Some(m) => JsonV::Number(m),
                None => JsonV::Null,
            },
            _ => JsonV::Null,
        }
    } else if kind == Some("array"@) || kind == Some("object"@) {
        match remote.get("value"@) {
            Some(JsonV::Array(items)) => {
                proof {
                    lemma_get_decreases(remote, "value"@);
                }
                if kind == Some("array"@) {
                    JsonV::Array(bidi_items(items, items.len()))
                } else {
                    JsonV::Object(bidi_members(items, items.len()))
                }
            },
            _ => if kind == Some("array"@) {
                JsonV::Array(Seq::empty())
            } else {
                JsonV::Object(Seq::empty())
            },
        }
    } else {
        JsonV::Null
    }
}

/// The plain JSON of the first `n` items of a BiDi array.
pub open spec fn bidi_items(items: Seq<JsonV>, n: nat) -> Seq<JsonV>
    decreases items, n,
{
    if n == 0 || n > items.len() {
        Seq::empty()
    } else {
        bidi_items(items, (n - 1) as nat).push(bidi_value(items[n - 1]))
    }
}

/// The members that the first `n` entries of a BiDi object make: each entry
/// that is a `[key, value]` pair sets its key (empty where it is not a
/// string) to the plain JSON of its value; other entries are skipped.
pub open spec fn bidi_members(entries: Seq<JsonV>, n: nat) -> Seq<(Seq<char>, JsonV)>
    decreases entries, n,
{
    if n == 0 || n > entries.len() {
        Seq::empty()
    } else {
        let acc = bidi_members(entries, (n - 1) as nat);
        match entries[n - 1] {
            JsonV::Array(pair) => if pair.len() == 2 {
                member_insert(acc, pair[0].str_or(Seq::empty()), bidi_value(pair[1]))
            } else {
                acc
            },
            _ => acc,
        }
    }
}

fn is_kind(kind: &Option<String>, name: &str) -> (b: bool)
    ensures
        b == (*kind matches Some(k) && k@ == name@),
{
    match kind {
        Some(k) => *k == String::from_str(name),
        None => false,
    }
}

/// Converts a BiDi remote value to plain JSON.
#[verifier::loop_isolation(false)]
pub fn bidi_to_json(remote: &Json) -> (r: Json)
    ensures
        r@ == bidi_value(remote@),
    decreases remote,
{
    proof {
        reveal_strlit("string");
        reveal_strlit("boolean");
        reveal_strlit("number");
        reveal_strlit("array");
        reveal_strlit("object");
        reveal_strlit("");
        assert(""@ =~= Seq::<char>::empty());
    }
    let kind = remote.str_field("type");
    if is_kind(&kind, "string") || is_kind(&kind, "boolean") {
        remote.field("value")
    } else if is_kind(&kind, "number") {
        match remote.get("value") {
            Some(Json::Number(n)) => match double_rounded(*n) {
                Some(m) => Json::Number(m),
                None => Json::Null,
            },
            _ => Json::Null,
        }
    } else if is_kind(&kind, "array") || is_kind(&kind, "object") {
        let as_array = is_kind(&kind, "array");
        match remote.get("value") {
            Some(v) => match v {
                Json::Array(items) => {
                    proof {
                        lemma_array_view(*items);
                    }
                    let ghost iv = items_view(items@);
                    if as_array {
                        let mut out: Vec<Json> = Vec::new();
                        let mut i: usize = 0;
                        while i < items.len()
                            invariant
                                i <= items.len(),
                                iv == items_view(items@),
                                items_view(out@) == bidi_items(iv, i as nat),
                                decreases_to!(*remote => *v),
                                *v == Json::Array(*items),
                            decreases items.len() - i,
                        {
                            proof {
                                assert(decreases_to!(*remote => items@[i as int]));
                            }
                            let c = bidi_to_json(&items[i]);
                            let ghost prev = out@;
                            out.push(c);
                            proof {
                                assert(iv[i as int] == items@[i as int]@);
                                assert(items_view(out@) =~= items_view(prev).push(c@));
                            }
                            i += 1;
                        }
                        proof {
                            lemma_array_view(out);
                        }
                        Json::Array(out)
                    } else {
                        let mut obj: Vec<(String, Json)> = Vec::new();
                        let mut i: usize = 0;
                        assert(members_view(obj@) =~= bidi_members(iv, 0));
                        while i < items.len()
                            invariant
                                i <= items.len(),
                                iv == items_view(items@),
                                members_view(obj@) == bidi_members(iv, i as nat),
                                decreases_to!(*remote => *v),
                                *v == Json::Array(*items),
                            decreases items.len() - i,
                        {
                            let entry = &items[i];
                            proof {
                                assert(iv[i as int] == entry@);
                            }
                            match entry {
                                Json::Array(pair) => {
                                    proof {
                                        lemma_array_view(*pair);
                                    }
                                    if pair.len() == 2 {
                                        let key = match pair[0].as_str() {
                                            Some(s) => s.clone(),
                                            None => String::new(),
                                        };
                                        proof {
                                            assert(decreases_to!(*remote => items@[i as int]));
                                            assert(decreases_to!(*pair => pair@[1]));
                                            assert(items_view(pair@)[0] == pair@[0]@);
                                            assert(items_view(pair@)[1] == pair@[1]@);
                                        }
                                        let value = bidi_to_json(&pair[1]);
                                        members_insert(&mut obj, key, value);
                                    }
                                },
                                _ => {},
                            }
                            i += 1;
                        }
                        proof {
                            lemma_object_view(obj);
                        }
                        Json::Object(obj)
                    }
                },
                _ => if as_array {
                    let out: Vec<Json> = Vec::new();
                    proof {
                        lemma_array_view(out);
                        assert(items_view(out@) =~= Seq::<JsonV>::empty());
                    }
                    Json::Array(out)
                } else {
                    crate::json::empty_object()
                },
            },
            None => if as_array {
                let out: Vec<Json> = Vec::new();
                proof {
                    lemma_array_view(out);
                    assert(items_view(out@) =~= Seq::<JsonV>::empty());
                }
                Json::Array(out)
            } else {
                crate::json::empty_object()
            },
        }
    } else {
        Json::Null
    }
}

/// A typed remote value `{"type": kind, "value": value}`.
pub open spec fn typed(kind: Seq<char>, value: JsonV) -> JsonV {
    JsonV::Object(seq![("type"@, JsonV::Str(kind)), ("value"@, value)])
}

proof fn lemma_typed_fields(kind: Seq<char>, value: JsonV)
    ensures
        typed(kind, value).field("type"@) == JsonV::Str(kind),
        typed(kind, value).field("value"@) == value,
        typed(kind, value).get("value"@) == Some(value),
{
    reveal_strlit("type");
    reveal_strlit("value");
    assert("value"@ != "type"@) by {
        assert("value"@[0] != "type"@[0]);
    }
    if let JsonV::Object(m) = typed(kind, value) {
        let m1 = m.drop_first();
        assert(member_lookup(m, "value"@) == member_lookup(m1, "value"@));
        assert(member_lookup(m1, "value"@) == Some(m1[0].1));
    }
}

/// Strings and booleans convert to themselves; `null` and `undefined`
/// convert to `null`; an array converts item by item.
pub proof fn law_plain_values(s: Seq<char>, b: bool, v: JsonV, items: Seq<JsonV>)
    ensures
        bidi_value(typed("string"@, JsonV::Str(s))) == JsonV::Str(s),
        bidi_value(typed("boolean"@, JsonV::Bool(b))) == JsonV::Bool(b),
        bidi_value(typed("null"@, v)) == JsonV::Null,
        bidi_value(typed("undefined"@, v)) == JsonV::Null,
        bidi_value(typed("array"@, JsonV::Array(items))) == JsonV::Array(bidi_items(items, items.len())),
{
    reveal_strlit("string");
    reveal_strlit("boolean");
    reveal_strlit("null");
    reveal_strlit("undefined");
    reveal_strlit("number");
    reveal_strlit("array");
    reveal_strlit("object");
    lemma_typed_fields("string"@, JsonV::Str(s));
    lemma_typed_fields("boolean"@, JsonV::Bool(b));
    lemma_typed_fields("null"@, v);
    lemma_typed_fields("undefined"@, v);
    lemma_typed_fields("array"@, JsonV::Array(items));
    assert("boolean"@ != "string"@) by {
        assert("boolean"@[0] != "string"@[0]);
    }
    assert("null"@ != "string"@ && "null"@ != "boolean"@ && "null"@ != "array"@ && "null"@ != "object"@) by {
        assert("null"@[0] != "string"@[0]);
        assert("null"@[0] != "boolean"@[0]);
        assert("null"@[0] != "array"@[0]);
        assert("null"@[0] != "object"@[0]);
    }
    assert("null"@ != "number"@) by {
        assert("null"@[2] != "number"@[2]);
    }
    assert("undefined"@ != "string"@ && "undefined"@ != "boolean"@ && "undefined"@ != "number"@
        && "undefined"@ != "array"@ && "undefined"@ != "object"@) by {
        assert("undefined"@[0] != "string"@[0]);
        assert("undefined"@[0] != "boolean"@[0]);
        assert("undefined"@[0] != "number"@[0]);
        assert("undefined"@[0] != "array"@[0]);
        assert("undefined"@[0] != "object"@[0]);
    }
    assert("array"@ != "string"@ && "array"@ != "boolean"@ && "array"@ != "number"@) by {
        assert("array"@[0] != "string"@[0]);
        assert("array"@[0] != "boolean"@[0]);
        assert("array"@[0] != "number"@[0]);
    }
}

proof fn lemma_kind_names_differ()
    ensures
        "array"@ != "string"@,
        "array"@ != "boolean"@,
        "array"@ != "number"@,
        "object"@ != "string"@,
        "object"@ != "boolean"@,
        "object"@ != "number"@,
        "object"@ != "array"@,
        "number"@ != "string"@,
        "number"@ != "boolean"@,
{
    reveal_strlit("string");
    reveal_strlit("boolean");
    reveal_strlit("number");
    reveal_strlit("array");
    reveal_strlit("object");
    assert("array"@[0] != "string"@[0]);
    assert("array"@[0] != "boolean"@[0]);
    assert("array"@[0] != "number"@[0]);
    assert("object"@[0] != "string"@[0]);
    assert("object"@[0] != "boolean"@[0]);
    assert("object"@[0] != "number"@[0]);
    assert("object"@[0] != "array"@[0]);
    assert("number"@[0] != "string"@[0]);
    assert("number"@[0] != "boolean"@[0]);
}

proof fn lemma_items_one_by_one(items: Seq<JsonV>, n: nat)
    requires
        n <= items.len(),
    ensures
        bidi_items(items, n).len() == n,
        forall|i: int| 0 <= i < n ==> #[trigger] bidi_items(items, n)[i] == bidi_value(items[i]),
    decreases n,
{
    if n > 0 {
        lemma_items_one_by_one(items, (n - 1) as nat);
    }
}

/// An array converts item by item: the conversion of a BiDi array holds,
/// in order, the conversion of each of its items, whatever they are (nested
/// arrays and objects included), and nothing else.
pub proof fn law_array_converts_items(items: Seq<JsonV>)
    ensures
        bidi_value(typed("array"@, JsonV::Array(items))) matches JsonV::Array(out) && out.len() == items.len()
            && forall|i: int| 0 <= i < items.len() ==> #[trigger] out[i] == bidi_value(items[i]),
{
    lemma_typed_fields("array"@, JsonV::Array(items));
    lemma_kind_names_differ();
    lemma_items_one_by_one(items, items.len());
}

/// A number that a double holds exactly (an integer below 2^53) converts to
/// that integer itself.
pub proof fn law_exact_number(u: u64)
    requires
        u < 0x20000000000000,
    ensures
        bidi_value(typed("number"@, JsonV::Number(JsonNumber::PosInt(u)))) == JsonV::Number(JsonNumber::PosInt(u)),
{
    lemma_typed_fields("number"@, JsonV::Number(JsonNumber::PosInt(u)));
    lemma_kind_names_differ();
    crate::ieee::law_exact_integers(u, 0);
}

/// Nested arrays convert all the way down: an array of arrays of typed
/// integers converts to the same arrays of plain integers.
pub proof fn law_nested_arrays(a: u64, b: u64)
    requires
        a < 0x20000000000000,
        b < 0x20000000000000,
    ensures
        bidi_value(
            typed(
                "array"@,
                JsonV::Array(
                    seq![
                        typed("array"@, JsonV::Array(seq![typed("number"@, JsonV::Number(JsonNumber::PosInt(a)))])),
                        typed("array"@, JsonV::Array(seq![typed("number"@, JsonV::Number(JsonNumber::PosInt(b)))])),
                    ],
                ),
            ),
        ) == JsonV::Array(
            seq![
                JsonV::Array(seq![JsonV::Number(JsonNumber::PosInt(a))]),
                JsonV::Array(seq![JsonV::Number(JsonNumber::PosInt(b))]),
            ],
        ),
{
    let ia = typed("array"@, JsonV::Array(seq![typed("number"@, JsonV::Number(JsonNumber::PosInt(a)))]));
    let ib = typed("array"@, JsonV::Array(seq![typed("number"@, JsonV::Number(JsonNumber::PosInt(b)))]));
    law_exact_number(a);
    law_exact_number(b);
    law_array_converts_items(seq![typed("number"@, JsonV::Number(JsonNumber::PosInt(a)))]);
    law_array_converts_items(seq![typed("number"@, JsonV::Number(JsonNumber::PosInt(b)))]);
    law_array_converts_items(seq![ia, ib]);
    if let JsonV::Array(out) = bidi_value(typed("array"@, JsonV::Array(seq![ia, ib]))) {
        assert(out[0] == bidi_value(ia));
        assert(out[1] == bidi_value(ib));
        if let JsonV::Array(oa) = bidi_value(ia) {
            assert(oa =~= seq![JsonV::Number(JsonNumber::PosInt(a))]);
        }
        if let JsonV::Array(ob) = bidi_value(ib) {
            assert(ob =~= seq![JsonV::Number(JsonNumber::PosInt(b))]);
        }
        assert(out =~= seq![
            JsonV::Array(seq![JsonV::Number(JsonNumber::PosInt(a))]),
            JsonV::Array(seq![JsonV::Number(JsonNumber::PosInt(b))]),
        ]);
    }
}

/// An object entry `[key, value]` converts to the member `key` holding the
/// conversion of `value`, whatever it is.
pub proof fn law_object_converts_members(key: Seq<char>, v: JsonV)
    ensures
        bidi_value(typed("object"@, JsonV::Array(seq![JsonV::Array(seq![JsonV::Str(key), v])])))
            == JsonV::Object(seq![(key, bidi_value(v))]),
{
    let entries = seq![JsonV::Array(seq![JsonV::Str(key), v])];
    lemma_typed_fields("object"@, JsonV::Array(entries));
    lemma_kind_names_differ();
    assert(bidi_members(entries, 0) == Seq::<(Seq<char>, JsonV)>::empty());
    assert(member_insert(Seq::<(Seq<char>, JsonV)>::empty(), key, bidi_value(v)) == seq![(key, bidi_value(v))]);
}

} // verus!
