//! A JSON document model: the executable values and their mathematical view.
use vstd::prelude::*;
use crate::primitives::{hex_digit, nat_text};

verus! {

/// A JSON number as it was read: a non-negative integer, a negative integer, or a
/// floating-point number carried by its IEEE-754 bits.
#[derive(Clone, Copy, Debug, PartialEq, Eq, Structural)]
pub enum JsonNumber {
    PosInt(u64),
    NegInt(i64),
    Float(u64),
}

/// A JSON value. Object members keep their order; on insertion a present key keeps its
/// place and takes the new value.
#[derive(Debug, PartialEq)]
pub enum JsonValue {
    Null,
    Bool(bool),
    Number(JsonNumber),
    String(String),
    Array(Vec<JsonValue>),
    Object(Vec<(String, JsonValue)>),
}

/// The mathematical view of a JSON value.
pub enum Json {
    Null,
    Bool(bool),
    Number(JsonNumber),
    Str(Seq<char>),
    Array(Seq<Json>),
    Object(Seq<(Seq<char>, Json)>),
}

pub open spec fn json_view(v: JsonValue) -> Json
    decreases v,
{
    match v {
        JsonValue::Null => Json::Null,
        JsonValue::Bool(b) => Json::Bool(b),
        JsonValue::Number(n) => Json::Number(n),
        JsonValue::String(s) => Json::Str(s@),
        JsonValue::Array(items) => Json::Array(json_seq_view(items@)),
        JsonValue::Object(members) => Json::Object(members_view(members@)),
    }
}

pub open spec fn json_seq_view(items: Seq<JsonValue>) -> Seq<Json>
    decreases items,
{
    if items.len() == 0 {
        Seq::empty()
    } else {
        json_seq_view(items.drop_last()).push(json_view(items.last()))
    }
}

pub open spec fn members_view(members: Seq<(String, JsonValue)>) -> Seq<(Seq<char>, Json)>
    decreases members,
{
    if members.len() == 0 {
        Seq::empty()
    } else {
        members_view(members.drop_last()).push(
            (members.last().0@, json_view(members.last().1)),
        )
    }
}

impl JsonValue {
    pub open spec fn view(&self) -> Json {
        json_view(*self)
    }
}


/// The view of a member list has one entry per member: its key's text and its value's view.
pub proof fn lemma_members_view(members: Seq<(String, JsonValue)>)
    ensures
        members_view(members).len() == members.len(),
        forall|i: int|
            0 <= i < members.len() ==> #[trigger] members_view(members)[i] == (
                members[i].0@,
                json_view(members[i].1),
            ),
    decreases members.len(),
{
    if members.len() > 0 {
        lemma_members_view(members.drop_last());
    }
}

/// The view of an item list has one entry per item.
pub proof fn lemma_json_seq_view(items: Seq<JsonValue>)
    ensures
        json_seq_view(items).len() == items.len(),
        forall|i: int| 0 <= i < items.len() ==> #[trigger] json_seq_view(items)[i] == json_view(items[i]),
    decreases items.len(),
{
    if items.len() > 0 {
        lemma_json_seq_view(items.drop_last());
    }
}

/// Two member lists with the same length and the same entries have the same view.
pub proof fn lemma_members_view_ext(a: Seq<(String, JsonValue)>, b: Seq<(Seq<char>, Json)>)
    requires
        a.len() == b.len(),
        forall|i: int| 0 <= i < a.len() ==> (a[i].0@, json_view(a[i].1)) == #[trigger] b[i],
    ensures
        members_view(a) == b,
{
    lemma_members_view(a);
    assert(members_view(a) =~= b);
}

/// The index of the first member with the given key.
pub open spec fn obj_find(m: Seq<(Seq<char>, Json)>, key: Seq<char>) -> Option<int>
    decreases m.len(),
{
    if m.len() == 0 {
        None
    } else {
        match obj_find(m.drop_last(), key) {
            Some(i) => Some(i),
            None => if m.last().0 == key {
                Some(m.len() - 1)
            } else {
                None
            },
        }
    }
}

/// The value of the first member with the given key.
pub open spec fn obj_get(m: Seq<(Seq<char>, Json)>, key: Seq<char>) -> Option<Json> {
    match obj_find(m, key) {
        Some(i) => Some(m[i].1),
        None => None,
    }
}

pub open spec fn obj_has(m: Seq<(Seq<char>, Json)>, key: Seq<char>) -> bool {
    obj_find(m, key) is Some
}

/// Sets `key` to `v`: a present key keeps its place, a new key goes last.
pub open spec fn obj_insert(m: Seq<(Seq<char>, Json)>, key: Seq<char>, v: Json) -> Seq<
    (Seq<char>, Json),
> {
    match obj_find(m, key) {
        Some(i) => m.update(i, (key, v)),
        None => m.push((key, v)),
    }
}

/// Removes the first member with the given key, if any.
pub open spec fn obj_remove(m: Seq<(Seq<char>, Json)>, key: Seq<char>) -> Seq<(Seq<char>, Json)> {
    match obj_find(m, key) {
        Some(i) => m.remove(i),
        None => m,
    }
}

/// No key occurs twice.
pub open spec fn keys_distinct(m: Seq<(Seq<char>, Json)>) -> bool {
    forall|i: int, j: int| 0 <= i < j < m.len() ==> #[trigger] m[i].0 != #[trigger] m[j].0
}

/// What `obj_find` finds: the first member with the key, or none when no member has it.
pub proof fn lemma_obj_find(m: Seq<(Seq<char>, Json)>, key: Seq<char>)
    ensures
        obj_find(m, key) matches Some(i) ==> 0 <= i < m.len() && m[i].0 == key && forall|j: int|
            0 <= j < i ==> #[trigger] m[j].0 != key,
        obj_find(m, key) is None ==> forall|j: int| 0 <= j < m.len() ==> #[trigger] m[j].0 != key,
    decreases m.len(),
{
    if m.len() > 0 {
        lemma_obj_find(m.drop_last(), key);
        assert forall|j: int| 0 <= j < m.len() - 1 implies m.drop_last()[j] == m[j] by {}
    }
}

/// Reading a key after setting some key.
pub proof fn lemma_obj_get_insert(m: Seq<(Seq<char>, Json)>, key: Seq<char>, v: Json, k: Seq<char>)
    ensures
        obj_get(obj_insert(m, key, v), k) == if k == key {
            Some(v)
        } else {
            obj_get(m, k)
        },
        keys_distinct(m) ==> keys_distinct(obj_insert(m, key, v)),
{
    lemma_obj_find(m, key);
    lemma_obj_find(m, k);
    let m2 = obj_insert(m, key, v);
    lemma_obj_find(m2, k);
    match obj_find(m, key) {
        Some(i) => {
            assert(m2[i].0 == m[i].0);
            match obj_find(m2, k) {
                Some(a) => {
                    assert(m2[a].0 == m[a].0);
                    match obj_find(m, k) {
                        Some(b) => {
                            assert(m2[b].0 == m[b].0);
                        },
                        None => {},
                    }
                },
                None => {
                    match obj_find(m, k) {
                        Some(b) => {
                            assert(m2[b].0 == m[b].0);
                        },
                        None => {},
                    }
                },
            }
        },
        None => {
            match obj_find(m2, k) {
                Some(a) => {
                    match obj_find(m, k) {
                        Some(b) => {
                            assert(m2[b].0 == m[b].0);
                        },
                        None => {
                            if a < m.len() {
                                assert(m2[a] == m[a]);
                            }
                        },
                    }
                },
                None => {
                    match obj_find(m, k) {
                        Some(b) => {
                            assert(m2[b].0 == m[b].0);
                        },
                        None => {},
                    }
                    assert(m2[m.len() as int].0 == key);
                },
            }
        },
    }
}

/// Reading a key after removing a key, in an object whose keys are distinct.
pub proof fn lemma_obj_get_remove(m: Seq<(Seq<char>, Json)>, key: Seq<char>, k: Seq<char>)
    requires
        keys_distinct(m),
    ensures
        obj_get(obj_remove(m, key), k) == if k == key {
            None
        } else {
            obj_get(m, k)
        },
        keys_distinct(obj_remove(m, key)),
{
    lemma_obj_find(m, key);
    lemma_obj_find(m, k);
    let m2 = obj_remove(m, key);
    lemma_obj_find(m2, k);
    match obj_find(m, key) {
        Some(i) => {
            assert forall|a: int| 0 <= a < m2.len() implies #[trigger] m2[a] == (if a < i {
                m[a]
            } else {
                m[a + 1]
            }) by {}
            match obj_find(m2, k) {
                Some(a) => {
                    if a < i {
                        assert(m2[a] == m[a]);
                    } else {
                        assert(m2[a] == m[a + 1]);
                    }
                    match obj_find(m, k) {
                        Some(b) => {
                            if b < i {
                                assert(m2[b] == m[b]);
                            } else if b > i {
                                assert(m2[b - 1] == m[b]);
                            }
                        },
                        None => {},
                    }
                },
                None => {
                    match obj_find(m, k) {
                        Some(b) => {
                            if b < i {
                                assert(m2[b] == m[b]);
                            } else if b > i {
                                assert(m2[b - 1] == m[b]);
                            }
                        },
                        None => {},
                    }
                },
            }
            assert forall|a: int, b: int| 0 <= a < b < m2.len() implies #[trigger] m2[a].0
                != #[trigger] m2[b].0 by {
                let a0 = if a < i { a } else { a + 1 };
                let b0 = if b < i { b } else { b + 1 };
                assert(m2[a] == m[a0]);
                assert(m2[b] == m[b0]);
            }
        },
        None => {},
    }
}


/// The index of the first member with the given key.
pub fn find_member(members: &Vec<(String, JsonValue)>, key: &str) -> (r: Option<usize>)
    ensures
        r matches Some(i) ==> obj_find(members_view(members@), key@) == Some(i as int),
        r is None ==> obj_find(members_view(members@), key@) is None,
{
    let ghost m = members_view(members@);
    proof {
        lemma_members_view(members@);
        lemma_obj_find(m, key@);
    }
    let k = key.to_owned();
    let mut i: usize = 0;
    while i < members.len()
        invariant
            i <= members.len(),
            k@ == key@,
            m == members_view(members@),
            m.len() == members.len(),
            forall|j: int| 0 <= j < members.len() ==> #[trigger] m[j] == (members@[j].0@, json_view(members@[j].1)),
            forall|j: int| 0 <= j < i ==> #[trigger] m[j].0 != key@,
            obj_find(m, key@) matches Some(f) ==> 0 <= f < m.len() && m[f].0 == key@ && forall|j: int|
                0 <= j < f ==> #[trigger] m[j].0 != key@,
            obj_find(m, key@) is None ==> forall|j: int| 0 <= j < m.len() ==> #[trigger] m[j].0 != key@,
        decreases members.len() - i,
    {
        if members[i].0 == k {
            assert(m[i as int].0 == key@);
            return Some(i);
        }
        i = i + 1;
    }
    None
}

/// The value of the first member with the given key.
pub fn get_member<'a>(members: &'a Vec<(String, JsonValue)>, key: &str) -> (r: Option<&'a JsonValue>)
    ensures
        r matches Some(v) ==> obj_get(members_view(members@), key@) == Some(v@),
        r is None ==> obj_get(members_view(members@), key@) is None,
{
    proof {
        lemma_members_view(members@);
        lemma_obj_find(members_view(members@), key@);
    }
    match find_member(members, key) {
        Some(i) => Some(&members[i].1),
        None => None,
    }
}

/// Sets `key` to `value`: a present key keeps its place, a new key goes last.
pub fn insert_member(members: &mut Vec<(String, JsonValue)>, key: String, value: JsonValue)
    ensures
        members_view(final(members)@) == obj_insert(members_view(old(members)@), key@, value@),
{
    let ghost m = members_view(members@);
    proof {
        lemma_members_view(members@);
    }
    let ghost kv = key@;
    let ghost vv = value@;
    proof {
        lemma_obj_find(m, kv);
    }
    match find_member(members, key.as_str()) {
        Some(i) => {
            members.set(i, (key, value));
            proof {
                lemma_members_view_ext(members@, m.update(i as int, (kv, vv)));
            }
        },
        None => {
            members.push((key, value));
            proof {
                lemma_members_view_ext(members@, m.push((kv, vv)));
            }
        },
    }
}

/// Removes the first member with the given key and returns its value.
pub fn remove_member(members: &mut Vec<(String, JsonValue)>, key: &str) -> (r: Option<JsonValue>)
    ensures
        members_view(final(members)@) == obj_remove(members_view(old(members)@), key@),
        r matches Some(v) ==> obj_get(members_view(old(members)@), key@) == Some(v@),
        r is None ==> obj_get(members_view(old(members)@), key@) is None,
{
    let ghost m = members_view(members@);
    proof {
        lemma_members_view(members@);
        lemma_obj_find(m, key@);
    }
    match find_member(members, key) {
        Some(i) => {
            let (_, v) = members.remove(i);
            proof {
                lemma_members_view_ext(members@, m.remove(i as int));
            }
            Some(v)
        },
        None => None,
    }
}

impl JsonValue {
    /// A copy of the value.
    pub fn duplicate(&self) -> (r: JsonValue)
        ensures
            r@ == self@,
        decreases self,
    {
        match self {
            JsonValue::Null => JsonValue::Null,
            JsonValue::Bool(b) => JsonValue::Bool(*b),
            JsonValue::Number(n) => JsonValue::Number(*n),
            JsonValue::String(s) => JsonValue::String(s.clone()),
            JsonValue::Array(items) => {
                let mut out: Vec<JsonValue> = Vec::new();
                let mut i: usize = 0;
                proof {
                    lemma_json_seq_view(items@);
                }
                while i < items.len()
                    invariant
                        *self == JsonValue::Array(*items),
                        i <= items.len(),
                        json_seq_view(out@) == json_seq_view(items@).subrange(0, i as int),
                        json_seq_view(items@).len() == items.len(),
                        forall|j: int| 0 <= j < items.len() ==> #[trigger] json_seq_view(items@)[j] == json_view(items@[j]),
                    decreases items.len() - i,
                {
                    proof {
                        vstd::std_specs::vec::axiom_vec_index_decreases(*items, i as int);
                        assert(decreases_to!(*self => (*self)->Array_0));
                    }
                    let c = items[i].duplicate();
                    let ghost before = out@;
                    out.push(c);
                    proof {
                        assert(out@.drop_last() =~= before);
                        assert(json_seq_view(out@) =~= json_seq_view(items@).subrange(0, i + 1));
                    }
                    i = i + 1;
                }
                proof {
                    assert(json_seq_view(items@).subrange(0, i as int) =~= json_seq_view(items@));
                }
                JsonValue::Array(out)
            },
            JsonValue::Object(members) => {
                let mut out: Vec<(String, JsonValue)> = Vec::new();
                let mut i: usize = 0;
                proof {
                    lemma_members_view(members@);
                }
                while i < members.len()
                    invariant
                        *self == JsonValue::Object(*members),
                        i <= members.len(),
                        members_view(out@) == members_view(members@).subrange(0, i as int),
                        members_view(members@).len() == members.len(),
                        forall|j: int| 0 <= j < members.len() ==> #[trigger] members_view(members@)[j] == (members@[j].0@, json_view(members@[j].1)),
                    decreases members.len() - i,
                {
                    proof {
                        let e = members[i as int];
                        vstd::std_specs::vec::axiom_vec_index_decreases(*members, i as int);
                        assert(decreases_to!(*self => (*self)->Object_0));
                        assert(decreases_to!(e => e.1));
                    }
                    let c = members[i].1.duplicate();
                    let k = members[i].0.clone();
                    let ghost before = out@;
                    out.push((k, c));
                    proof {
                        assert(out@.drop_last() =~= before);
                        assert(members_view(out@) =~= members_view(members@).subrange(0, i + 1));
                    }
                    i = i + 1;
                }
                proof {
                    assert(members_view(members@).subrange(0, i as int) =~= members_view(members@));
                }
                JsonValue::Object(out)
            },
        }
    }
}


/// A character as it stands inside a JSON string written by `serde_json`: `"` and the backslash
/// escaped with a backslash, the control characters with a short escape where JSON has one
/// and as `\u00XX` (lowercase hex) otherwise, every other character as itself.
pub open spec fn json_escape_char(c: char) -> Seq<char> {
    if c == '"' {
        seq!['\\', '"']
    } else if c == '\\' {
        seq!['\\', '\\']
    } else if c == '\n' {
        seq!['\\', 'n']
    } else if c == '\r' {
        seq!['\\', 'r']
    } else if c == '\t' {
        seq!['\\', 't']
    } else if c == '\u{8}' {
        seq!['\\', 'b']
    } else if c == '\u{c}' {
        seq!['\\', 'f']
    } else if (c as u32) < 0x20 {
        seq!['\\', 'u', '0', '0', hex_digit((c as u32) as int / 16), hex_digit((c as u32) as int % 16)]
    } else {
        seq![c]
    }
}

/// The characters of a string, each escaped as inside a JSON string.
pub open spec fn json_escape(s: Seq<char>) -> Seq<char>
    decreases s.len(),
{
    if s.len() == 0 {
        Seq::empty()
    } else {
        json_escape(s.drop_last()) + json_escape_char(s.last())
    }
}

/// A JSON string literal: the escaped characters between double quotes.
pub open spec fn json_string_text(s: Seq<char>) -> Seq<char> {
    seq!['"'] + json_escape(s) + seq!['"']
}

/// The compact JSON text of a value, as `serde_json::to_string` writes it: no whitespace,
/// array items and object members in their order and separated by commas, strings escaped,
/// integers in decimal. A value holding a floating-point number has none here (its digits
/// are not modelled).
pub open spec fn json_compact(v: Json) -> Option<Seq<char>>
    decreases v,
{
    match v {
        Json::Null => Some(seq!['n', 'u', 'l', 'l']),
        Json::Bool(b) => Some(
            if b {
                seq!['t', 'r', 'u', 'e']
            } else {
                seq!['f', 'a', 'l', 's', 'e']
            },
        ),
        Json::Number(JsonNumber::PosInt(u)) => Some(nat_text(u as nat)),
        Json::Number(JsonNumber::NegInt(i)) => Some(
            if i < 0 {
                seq!['-'] + nat_text((-i) as nat)
            } else {
                nat_text(i as nat)
            },
        ),
        Json::Number(JsonNumber::Float(_)) => None,
        Json::Str(s) => Some(json_string_text(s)),
        Json::Array(items) => match json_items_compact(items) {
            Some(t) => Some(seq!['['] + t + seq![']']),
            None => None,
        },
        Json::Object(m) => match json_members_compact(m) {
            Some(t) => Some(seq!['{'] + t + seq!['}']),
            None => None,
        },
    }
}

/// The compact texts of array items, separated by commas.
pub open spec fn json_items_compact(items: Seq<Json>) -> Option<Seq<char>>
    decreases items,
{
    if items.len() == 0 {
        Some(Seq::empty())
    } else if items.len() == 1 {
        json_compact(items[0])
    } else {
        match (json_items_compact(items.drop_last()), json_compact(items.last())) {
            (Some(a), Some(b)) => Some(a + seq![','] + b),
            _ => None,
        }
    }
}

/// The compact texts of object members (`"key":value`), separated by commas.
pub open spec fn json_members_compact(m: Seq<(Seq<char>, Json)>) -> Option<Seq<char>>
    decreases m,
{
    if m.len() == 0 {
        Some(Seq::empty())
    } else {
        let last = match json_compact(m.last().1) {
            Some(b) => Some(json_string_text(m.last().0) + seq![':'] + b),
            None => None,
        };
        if m.len() == 1 {
            last
        } else {
            match (json_members_compact(m.drop_last()), last) {
                (Some(a), Some(b)) => Some(a + seq![','] + b),
                _ => None,
            }
        }
    }
}

/// A character that a JSON string holds as itself.
pub open spec fn json_plain_char(c: char) -> bool {
    (c as u32) >= 0x20 && c != '"' && c != '\\'
}

/// Text of plain characters is written inside a JSON string unchanged.
pub proof fn lemma_json_escape_plain(s: Seq<char>)
    requires
        forall|i: int| 0 <= i < s.len() ==> json_plain_char(#[trigger] s[i]),
    ensures
        json_escape(s) == s,
    decreases s.len(),
{
    if s.len() > 0 {
        lemma_json_escape_plain(s.drop_last());
        assert(json_plain_char(s[s.len() - 1]));
        assert(s.drop_last().push(s.last()) =~= s);
    }
}

} // verus!
