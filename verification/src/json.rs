//! A JSON document model: the values that the browser protocols exchange.

use vstd::prelude::*;

verus! {

/// A JSON number, kept the way the wire format distinguishes them:
/// non-negative integers, negative integers, and other numbers given by
/// their IEEE-754 binary64 bit pattern.
#[derive(Debug, Clone, Copy, PartialEq, Eq, Structural)]
pub enum JsonNumber {
    PosInt(u64),
    NegInt(i64),
    Float(u64),
}

/// The mathematical value of a [`Json`] document.
pub enum JsonV {
    Null,
    Bool(bool),
    Number(JsonNumber),
    Str(Seq<char>),
    Array(Seq<JsonV>),
    Object(Seq<(Seq<char>, JsonV)>),
}

/// A JSON document. Objects keep their members in order, as key/value pairs.
#[derive(Debug, PartialEq)]
pub enum Json {
    Null,
    Bool(bool),
    Number(JsonNumber),
    Str(String),
    Array(Vec<Json>),
    Object(Vec<(String, Json)>),
}

pub open spec fn json_view(j: Json) -> JsonV
    decreases j,
{
    match j {
        Json::Null => JsonV::Null,
        Json::Bool(b) => JsonV::Bool(b),
        Json::Number(n) => JsonV::Number(n),
        Json::Str(s) => JsonV::Str(s@),
        Json::Array(items) => JsonV::Array(
            Seq::new(items@.len(), |i: int| if 0 <= i < items@.len() { json_view(items@[i]) } else { JsonV::Null }),
        ),
        Json::Object(members) => JsonV::Object(
            Seq::new(
                members@.len(),
                |i: int|
                    if 0 <= i < members@.len() {
                        (members@[i].0@, json_view(members@[i].1))
                    } else {
                        (Seq::empty(), JsonV::Null)
                    },
            ),
        ),
    }
}

impl View for Json {
    type V = JsonV;

    open spec fn view(&self) -> JsonV {
        json_view(*self)
    }
}


/// The view of one object member.
pub open spec fn pair_view(p: (String, Json)) -> (Seq<char>, JsonV) {
    (p.0@, json_view(p.1))
}

/// The views of an object's members, in order.
pub open spec fn members_view(members: Seq<(String, Json)>) -> Seq<(Seq<char>, JsonV)> {
    Seq::new(members.len(), |i: int| (members[i].0@, json_view(members[i].1)))
}

/// The views of an array's items, in order.
pub open spec fn items_view(items: Seq<Json>) -> Seq<JsonV> {
    Seq::new(items.len(), |i: int| json_view(items[i]))
}

/// The value of the first member named `key`, if any.
pub open spec fn member_lookup(members: Seq<(Seq<char>, JsonV)>, key: Seq<char>) -> Option<JsonV>
    decreases members.len(),
{
    if members.len() == 0 {
        None
    } else if members[0].0 == key {
        Some(members[0].1)
    } else {
        member_lookup(members.drop_first(), key)
    }
}

/// The members after setting `key` to `value`: the first member named
/// `key` gets the new value in place; without one, the member is appended.
pub open spec fn member_insert(members: Seq<(Seq<char>, JsonV)>, key: Seq<char>, value: JsonV) -> Seq<
    (Seq<char>, JsonV),
>
    decreases members.len(),
{
    if members.len() == 0 {
        seq![(key, value)]
    } else if members[0].0 == key {
        members.update(0, (key, value))
    } else {
        seq![members[0]] + member_insert(members.drop_first(), key, value)
    }
}

/// Setting a key and then looking it up gives the value set.
pub proof fn law_set_then_get(members: Seq<(Seq<char>, JsonV)>, key: Seq<char>, value: JsonV)
    ensures
        member_lookup(member_insert(members, key, value), key) == Some(value),
    decreases members.len(),
{
    if members.len() > 0 && members[0].0 != key {
        law_set_then_get(members.drop_first(), key, value);
        let ins = member_insert(members, key, value);
        assert(ins.drop_first() =~= member_insert(members.drop_first(), key, value));
    }
}

/// Setting a key leaves every other key's value as it was.
pub proof fn law_set_keeps_others(
    members: Seq<(Seq<char>, JsonV)>,
    key: Seq<char>,
    value: JsonV,
    other: Seq<char>,
)
    requires
        other != key,
    ensures
        member_lookup(member_insert(members, key, value), other) == member_lookup(members, other),
    decreases members.len(),
{
    let ins = member_insert(members, key, value);
    if members.len() == 0 {
        assert(ins.drop_first() =~= Seq::<(Seq<char>, JsonV)>::empty());
        assert(ins[0].0 == key);
        assert(member_lookup(ins, other) == member_lookup(ins.drop_first(), other));
    } else if members[0].0 == key {
        assert(ins.drop_first() =~= members.drop_first());
        assert(ins[0].0 == key);
        assert(member_lookup(ins, other) == member_lookup(ins.drop_first(), other));
    } else {
        law_set_keeps_others(members.drop_first(), key, value, other);
        assert(ins.drop_first() =~= member_insert(members.drop_first(), key, value));
        assert(ins[0] == members[0]);
    }
}

proof fn lemma_insert_at(members: Seq<(Seq<char>, JsonV)>, key: Seq<char>, value: JsonV, i: int)
    requires
        0 <= i <= members.len(),
        forall|j: int| 0 <= j < i ==> #[trigger] members[j].0 != key,
        i < members.len() ==> members[i].0 == key,
    ensures
        member_insert(members, key, value) == if i < members.len() {
            members.update(i, (key, value))
        } else {
            members.push((key, value))
        },
    decreases members.len(),
{
    if members.len() == 0 {
        assert(seq![(key, value)] =~= members.push((key, value)));
    } else if i == 0 {
    } else {
        let rest = members.drop_first();
        assert forall|j: int| 0 <= j < i - 1 implies #[trigger] rest[j].0 != key by {
            assert(rest[j] == members[j + 1]);
        }
        lemma_insert_at(rest, key, value, i - 1);
        if i < members.len() {
            assert(seq![members[0]] + rest.update(i - 1, (key, value)) =~= members.update(i, (key, value)));
        } else {
            assert(seq![members[0]] + rest.push((key, value)) =~= members.push((key, value)));
        }
    }
}

/// Sets member `key` of an object's members to `value` (see [`member_insert`]).
#[verifier::loop_isolation(false)]
pub fn members_insert(members: &mut Vec<(String, Json)>, key: String, value: Json)
    ensures
        members_view(final(members)@) == member_insert(members_view(old(members)@), key@, value@),
{
    let ghost before = members_view(members@);
    let mut i: usize = 0;
    while i < members.len()
        invariant
            i <= members.len(),
            members_view(members@) == before,
            forall|j: int| 0 <= j < i ==> #[trigger] before[j].0 != key@,
        decreases members.len() - i,
    {
        if members[i].0 == key {
            proof {
                lemma_insert_at(before, key@, value@, i as int);
            }
            let ghost kv = key@;
            let ghost vv = value@;
            members.set(i, (key, value));
            assert(members_view(members@) =~= before.update(i as int, (kv, vv)));
            return;
        }
        i += 1;
    }
    proof {
        lemma_insert_at(before, key@, value@, i as int);
    }
    let ghost kv = key@;
    let ghost vv = value@;
    members.push((key, value));
    assert(members_view(members@) =~= before.push((kv, vv)));
}

/// A number made from a signed integer: non-negative values are `PosInt`.
pub open spec fn number_from_i64(n: i64) -> JsonNumber {
    if n >= 0 {
        JsonNumber::PosInt(n as u64)
    } else {
        JsonNumber::NegInt(n)
    }
}

impl JsonV {
    /// The member named `key` of an object; `None` for anything else.
    pub open spec fn get(self, key: Seq<char>) -> Option<JsonV> {
        match self {
            JsonV::Object(members) => member_lookup(members, key),
            _ => None,
        }
    }

    /// Indexing by key: the member named `key`, or `Null` where there is none.
    pub open spec fn field(self, key: Seq<char>) -> JsonV {
        match self.get(key) {
            Some(v) => v,
            None => JsonV::Null,
        }
    }

    pub open spec fn as_str(self) -> Option<Seq<char>> {
        match self {
            JsonV::Str(s) => Some(s),
            _ => None,
        }
    }

    pub open spec fn as_u64(self) -> Option<u64> {
        match self {
            JsonV::Number(JsonNumber::PosInt(n)) => Some(n),
            _ => None,
        }
    }

    pub open spec fn as_i64(self) -> Option<i64> {
        match self {
            JsonV::Number(JsonNumber::PosInt(n)) => if n <= i64::MAX {
                Some(n as i64)
            } else {
                None
            },
            JsonV::Number(JsonNumber::NegInt(n)) => Some(n),
            _ => None,
        }
    }

    pub open spec fn as_array(self) -> Option<Seq<JsonV>> {
        match self {
            JsonV::Array(items) => Some(items),
            _ => None,
        }
    }

    /// The text of a string value, or `default` for any other value.
    pub open spec fn str_or(self, default: Seq<char>) -> Seq<char> {
        match self {
            JsonV::Str(s) => s,
            _ => default,
        }
    }

    /// The text of a string value, or the empty text for any other value.
    pub open spec fn str_or_empty(self) -> Seq<char> {
        match self {
            JsonV::Str(s) => s,
            _ => Seq::empty(),
        }
    }
}

pub proof fn lemma_object_view(members: Vec<(String, Json)>)
    ensures
        Json::Object(members)@ == JsonV::Object(members_view(members@)),
{
    assert(members_view(members@) =~= match json_view(Json::Object(members)) {
        JsonV::Object(m) => m,
        _ => Seq::empty(),
    });
}

pub proof fn lemma_array_view(items: Vec<Json>)
    ensures
        Json::Array(items)@ == JsonV::Array(items_view(items@)),
{
    assert(items_view(items@) =~= match json_view(Json::Array(items)) {
        JsonV::Array(m) => m,
        _ => Seq::empty(),
    });
}

proof fn lemma_lookup_step(members: Seq<(Seq<char>, JsonV)>, key: Seq<char>, i: int)
    requires
        0 <= i < members.len(),
        members[i].0 != key,
    ensures
        member_lookup(members.skip(i), key) == member_lookup(members.skip(i + 1), key),
{
    assert(members.skip(i).drop_first() =~= members.skip(i + 1));
}

impl Json {
    /// The member named `key` of an object; `None` for any other value.
    #[verifier::loop_isolation(false)]
    pub fn get(&self, key: &str) -> (r: Option<&Json>)
        ensures
            r matches Some(v) ==> self@.get(key@) == Some(v@) && decreases_to!(*self => *v),
            r is None ==> self@.get(key@) is None,
    {
        match self {
            Json::Object(members) => {
                proof {
                    lemma_object_view(*members);
                }
                let ghost mv = members_view(members@);
                let k = String::from_str(key);
                let mut i: usize = 0;
                assert(mv.skip(0) =~= mv);
                while i < members.len()
                    invariant
                        i <= members.len(),
                        mv == members_view(members@),
                        k@ == key@,
                        member_lookup(mv, key@) == member_lookup(mv.skip(i as int), key@),
                    decreases members.len() - i,
                {
                    if members[i].0 == k {
                        assert(mv.skip(i as int)[0] == mv[i as int]);
                        assert(mv.skip(i as int).len() > 0);
                        assert(member_lookup(mv.skip(i as int), key@) == Some(mv[i as int].1));
                        assert(decreases_to!(*self => members@[i as int].1));
                        return Some(&members[i].1);
                    }
                    proof {
                        lemma_lookup_step(mv, key@, i as int);
                    }
                    i += 1;
                }
                None
            },
            _ => None,
        }
    }

    /// The member named `key`, or `null` where there is none (indexing by key).
    pub fn field(&self, key: &str) -> (r: Json)
        ensures
            r@ == self@.field(key@),
    {
        match self.get(key) {
            Some(v) => v.duplicate(),
            None => Json::Null,
        }
    }

    /// The text of the string member named `key`, or `default`.
    pub fn str_field_or(&self, key: &str, default: &str) -> (r: String)
        ensures
            r@ == self@.field(key@).str_or(default@),
    {
        match self.get(key) {
            Some(v) => match v.as_str() {
                Some(s) => s.clone(),
                None => String::from_str(default),
            },
            None => String::from_str(default),
        }
    }

    /// The text of the string member named `key`, if there is one.
    pub fn str_field(&self, key: &str) -> (r: Option<String>)
        ensures
            r matches Some(s) ==> self@.field(key@).as_str() == Some(s@),
            r is None ==> self@.field(key@).as_str() is None,
    {
        match self.get(key) {
            Some(v) => match v.as_str() {
                Some(s) => Some(s.clone()),
                None => None,
            },
            None => None,
        }
    }

    /// The text of a string value, or `default`.
    pub fn as_str_or(&self, default: &str) -> (r: String)
        ensures
            r@ == self@.str_or(default@),
    {
        match self {
            Json::Str(s) => s.clone(),
            _ => String::from_str(default),
        }
    }

    pub fn as_str(&self) -> (r: Option<&String>)
        ensures
            r matches Some(s) ==> self@.as_str() == Some(s@),
            r is None ==> self@.as_str() is None,
    {
        match self {
            Json::Str(s) => Some(s),
            _ => None,
        }
    }

    pub fn as_u64(&self) -> (r: Option<u64>)
        ensures
            r == self@.as_u64(),
    {
        match self {
            Json::Number(JsonNumber::PosInt(n)) => Some(*n),
            _ => None,
        }
    }

    pub fn as_i64(&self) -> (r: Option<i64>)
        ensures
            r == self@.as_i64(),
    {
        match self {
            Json::Number(JsonNumber::PosInt(n)) => if *n <= i64::MAX as u64 {
                Some(*n as i64)
            } else {
                None
            },
            Json::Number(JsonNumber::NegInt(n)) => Some(*n),
            _ => None,
        }
    }

    pub fn as_array(&self) -> (r: Option<&Vec<Json>>)
        ensures
            r matches Some(items) ==> self@.as_array() == Some(items_view(items@)),
            r is None ==> self@.as_array() is None,
    {
        match self {
            Json::Array(items) => {
                proof {
                    lemma_array_view(*items);
                }
                Some(items)
            },
            _ => None,
        }
    }

    /// A deep copy of this document.
    #[verifier::loop_isolation(false)]
    pub fn duplicate(&self) -> (r: Json)
        ensures
            r@ == self@,
        decreases self,
    {
        match self {
            Json::Null => Json::Null,
            Json::Bool(b) => Json::Bool(*b),
            Json::Number(n) => Json::Number(*n),
            Json::Str(s) => Json::Str(s.clone()),
            Json::Array(items) => {
                let mut out: Vec<Json> = Vec::new();
                let mut i: usize = 0;
                while i < items.len()
                    invariant
                        i <= items.len(),
                        out@.len() == i,
                        forall|j: int| 0 <= j < i ==> #[trigger] out@[j]@ == items@[j]@,
                    decreases items.len() - i,
                {
                    proof {
                        assert(decreases_to!(*self => items@[i as int]));
                    }
                    let c = items[i].duplicate();
                    out.push(c);
                    i += 1;
                }
                proof {
                    lemma_array_view(*items);
                    lemma_array_view(out);
                    assert forall|j: int| 0 <= j < out@.len() implies #[trigger] items_view(out@)[j]
                        == items_view(items@)[j] by {
                        assert(out@[j]@ == items@[j]@);
                    }
                    assert(items_view(out@) =~= items_view(items@));
                }
                Json::Array(out)
            },
            Json::Object(members) => {
                let mut out: Vec<(String, Json)> = Vec::new();
                let mut i: usize = 0;
                while i < members.len()
                    invariant
                        i <= members.len(),
                        out@.len() == i,
                        forall|j: int| 0 <= j < i ==> #[trigger] pair_view(out@[j]) == pair_view(members@[j]),
                    decreases members.len() - i,
                {
                    let k = members[i].0.clone();
                    proof {
                        assert(decreases_to!(*self => members@[i as int].1));
                    }
                    let v = members[i].1.duplicate();
                    out.push((k, v));
                    i += 1;
                }
                proof {
                    lemma_object_view(*members);
                    lemma_object_view(out);
                    assert forall|j: int| 0 <= j < out@.len() implies #[trigger] members_view(out@)[j]
                        == members_view(members@)[j] by {
                        assert(pair_view(out@[j]) == pair_view(members@[j]));
                    }
                    assert(members_view(out@) =~= members_view(members@));
                }
                Json::Object(out)
            },
        }
    }
}

/// An object member with the given key and value.
pub fn member(key: &str, value: Json) -> (r: (String, Json))
    ensures
        pair_view(r) == (key@, value@),
{
    (String::from_str(key), value)
}

/// A string value with the given text.
pub fn text_value(s: &str) -> (r: Json)
    ensures
        r@ == JsonV::Str(s@),
{
    Json::Str(String::from_str(s))
}

/// A number value from a signed integer.
pub fn int_value(n: i64) -> (r: Json)
    ensures
        r@ == JsonV::Number(number_from_i64(n)),
{
    if n >= 0 {
        Json::Number(JsonNumber::PosInt(n as u64))
    } else {
        Json::Number(JsonNumber::NegInt(n))
    }
}

/// An object with the given members, in order.
pub fn object(members: Vec<(String, Json)>) -> (r: Json)
    ensures
        r@ == JsonV::Object(members_view(members@)),
{
    proof {
        lemma_object_view(members);
    }
    Json::Object(members)
}

/// An object with one member.
pub fn object1(k1: &str, v1: Json) -> (r: Json)
    ensures
        r@ == JsonV::Object(seq![(k1@, v1@)]),
{
    let ghost e = seq![(k1@, v1@)];
    let mut m: Vec<(String, Json)> = Vec::new();
    m.push(member(k1, v1));
    let r = object(m);
    assert(members_view(m@) =~= e);
    r
}

/// An object with two members, in order.
pub fn object2(k1: &str, v1: Json, k2: &str, v2: Json) -> (r: Json)
    ensures
        r@ == JsonV::Object(seq![(k1@, v1@), (k2@, v2@)]),
{
    let ghost e = seq![(k1@, v1@), (k2@, v2@)];
    let mut m: Vec<(String, Json)> = Vec::new();
    m.push(member(k1, v1));
    m.push(member(k2, v2));
    let r = object(m);
    assert(members_view(m@) =~= e);
    r
}

/// An object with three members, in order.
pub fn object3(k1: &str, v1: Json, k2: &str, v2: Json, k3: &str, v3: Json) -> (r: Json)
    ensures
        r@ == JsonV::Object(seq![(k1@, v1@), (k2@, v2@), (k3@, v3@)]),
{
    let ghost e = seq![(k1@, v1@), (k2@, v2@), (k3@, v3@)];
    let mut m: Vec<(String, Json)> = Vec::new();
    m.push(member(k1, v1));
    m.push(member(k2, v2));
    m.push(member(k3, v3));
    let r = object(m);
    assert(members_view(m@) =~= e);
    r
}

/// An empty object.
pub fn empty_object() -> (r: Json)
    ensures
        r@ == JsonV::Object(Seq::empty()),
{
    let r = object(Vec::new());
    assert(members_view(Seq::<(String, Json)>::empty()) =~= Seq::empty());
    r
}

impl Clone for Json {
    fn clone(&self) -> (r: Json)
        ensures
            r@ == self@,
    {
        self.duplicate()
    }
}

} // verus!
