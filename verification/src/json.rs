//! A JSON value as the bot runtime reads it: event payloads and command metadata.
//!
//! Numbers are kept as the text that stands for them, so that no floating-point
//! value enters the library.

use vstd::prelude::*;

verus! {

/// A JSON value.
pub enum Json {
    Null,
    Bool(bool),
    /// A number, held as its JSON text.
    Number(String),
    Str(String),
    Array(Vec<Json>),
    /// Members in order; in a well-formed value (`well_formed`) the keys are distinct.
    Object(Vec<(String, Json)>),
}

/// The value stored under `key` in the member list `m`, if any (the first one).
pub open spec fn member_spec(m: Seq<(String, Json)>, key: Seq<char>) -> Option<Json>
    decreases m.len(),
{
    if m.len() == 0 {
        None
    } else if m[0].0@ == key {
        Some(m[0].1)
    } else {
        member_spec(m.drop_first(), key)
    }
}

/// Whether the keys of a member list are pairwise distinct.
pub open spec fn keys_distinct(m: Seq<(String, Json)>) -> bool {
    forall|i: int, k: int| 0 <= i < k < m.len() ==> m[i].0@ != m[k].0@
}

/// Whether `j` is well formed: every object in it, at any depth, has distinct keys (as
/// every value parsed by `serde_json` has, its objects being maps).
pub open spec fn well_formed(j: Json) -> bool
    decreases j,
{
    match j {
        Json::Array(v) => forall|i: int| 0 <= i < v@.len() ==> well_formed(#[trigger] v@[i]),
        Json::Object(m) => keys_distinct(m@) && forall|i: int| 0 <= i < m@.len() ==> well_formed(#[trigger] m@[i].1),
        _ => true,
    }
}

/// In a member list with distinct keys, looking a key up finds the one member with that
/// key: first and last occurrence agree.
pub proof fn law_distinct_keys_lookup(m: Seq<(String, Json)>, i: int)
    requires
        keys_distinct(m),
        0 <= i < m.len(),
    ensures
        member_spec(m, m[i].0@) == Some(m[i].1),
    decreases m.len(),
{
    if i > 0 {
        assert(m[0].0@ != m[i].0@);
        let rest = m.drop_first();
        assert(rest[i - 1] == m[i]);
        assert(keys_distinct(rest)) by {
            assert forall|a: int, b: int| 0 <= a < b < rest.len() implies rest[a].0@ != rest[b].0@ by {
                assert(rest[a] == m[a + 1] && rest[b] == m[b + 1]);
            }
        }
        law_distinct_keys_lookup(rest, i - 1);
    }
}

impl Json {
    /// `value.get(key)`: the member `key` of an object; `None` for a missing key or a
    /// value that is not an object.
    pub open spec fn get_spec(self, key: Seq<char>) -> Option<Json> {
        match self {
            Json::Object(m) => member_spec(m@, key),
            _ => None,
        }
    }

    /// `value[key]`: the member, or `Null` where `get` gives nothing.
    pub open spec fn index_spec(self, key: Seq<char>) -> Json {
        match self.get_spec(key) {
            Some(v) => v,
            None => Json::Null,
        }
    }

    /// The text of a string value.
    pub open spec fn as_str_spec(self) -> Option<Seq<char>> {
        match self {
            Json::Str(s) => Some(s@),
            _ => None,
        }
    }

    /// The member `key`, if present.
    pub fn get(&self, key: &str) -> (r: Option<&Json>)
        ensures
            r matches Some(v) ==> self.get_spec(key@) == Some(*v),
            r is None ==> self.get_spec(key@) is None,
    {
        match self {
            Json::Object(m) => {
                let mut i: usize = 0;
                assert(m@.skip(0) =~= m@);
                while i < m.len()
                    invariant
                        i <= m@.len(),
                        self.get_spec(key@) == member_spec(m@, key@),
                        member_spec(m@, key@) == member_spec(m@.skip(i as int), key@),
                    decreases m@.len() - i,
                {
                    let ghost rest = m@.skip(i as int);
                    assert(rest.drop_first() =~= m@.skip(i + 1));
                    assert(rest[0] == m@[i as int]);
                    if crate::text::str_eq(m[i].0.as_str(), key) {
                        assert(m@[i as int].0@ == key@);
                        assert(member_spec(rest, key@) == Some(rest[0].1));
                        let r = &m[i].1;
                        assert(*r == m@[i as int].1);
                        return Some(r);
                    }
                    i = i + 1;
                }
                None
            },
            _ => None,
        }
    }

    /// The text of a string value, or of the string member `key`.
    pub fn as_str(&self) -> (r: Option<&str>)
        ensures
            r matches Some(s) ==> self.as_str_spec() == Some(s@),
            r is None ==> self.as_str_spec() is None,
    {
        match self {
            Json::Str(s) => Some(s.as_str()),
            _ => None,
        }
    }
}


impl Json {
    /// Whether this value is well formed: every object in it, at any depth, has
    /// distinct keys.
    pub fn is_well_formed(&self) -> (r: bool)
        ensures
            r == well_formed(*self),
        decreases self,
    {
        match self {
            Json::Array(v) => {
                let mut i: usize = 0;
                while i < v.len()
                    invariant
                        *self == Json::Array(*v),
                        i <= v@.len(),
                        forall|k: int| 0 <= k < i ==> well_formed(#[trigger] v@[k]),
                    decreases v@.len() - i,
                {
                    assert(decreases_to!(*self => (*self)->Array_0));
                    assert(decreases_to!(*v => v@));
                    assert(decreases_to!(v@ => v@[i as int]));
                    if !v[i].is_well_formed() {
                        return false;
                    }
                    i = i + 1;
                }
                true
            },
            Json::Object(m) => {
                let mut i: usize = 0;
                while i < m.len()
                    invariant
                        *self == Json::Object(*m),
                        i <= m@.len(),
                        forall|a: int| 0 <= a < i ==> well_formed(#[trigger] m@[a].1),
                        forall|a: int, b: int| 0 <= a < i && a < b < m@.len() ==> m@[a].0@ != m@[b].0@,
                    decreases m@.len() - i,
                {
                    assert(decreases_to!(*self => (*self)->Object_0));
                    assert(decreases_to!(*m => m@));
                    assert(decreases_to!(m@ => m@[i as int]));
                    assert(decreases_to!(m@[i as int] => m@[i as int].1));
                    if !m[i].1.is_well_formed() {
                        return false;
                    }
                    let mut k: usize = i + 1;
                    while k < m.len()
                        invariant
                            *self == Json::Object(*m),
                            i < k <= m@.len(),
                            forall|b: int| i < b < k ==> m@[i as int].0@ != (#[trigger] m@[b]).0@,
                        decreases m@.len() - k,
                    {
                        if crate::text::str_eq(m[i].0.as_str(), m[k].0.as_str()) {
                            assert(!keys_distinct(m@));
                            return false;
                        }
                        k = k + 1;
                    }
                    i = i + 1;
                }
                true
            },
            _ => true,
        }
    }
}

/// The compact JSON text that `serde_json` writes for the value `j` stands for (the
/// `Display` of `serde_json::Value`: no whitespace, object members in key order).
pub uninterp spec fn serde_json_text(j: Json) -> Seq<char>;

/// `serde_json`'s value type.
#[verifier::external_type_specification]
#[verifier::external_body]
pub struct ExSerdeValue(serde_json::Value);

/// The `serde_json` value that `j` stands for, variant by variant; a number whose text
/// `serde_json::Number` does not read becomes `null`. Nothing is stated of the result.
#[verifier::external_body]
fn serde_value(j: &Json) -> serde_json::Value {
    match j {
        Json::Null => serde_json::Value::Null,
        Json::Bool(b) => serde_json::Value::Bool(*b),
        Json::Number(n) => n.parse::<serde_json::Number>().map(serde_json::Value::Number).unwrap_or(serde_json::Value::Null),
        Json::Str(s) => serde_json::Value::String(s.clone()),
        Json::Array(v) => serde_json::Value::Array(v.iter().map(serde_value).collect()),
        Json::Object(m) => serde_json::Value::Object(m.iter().map(|(k, v)| (k.clone(), serde_value(v))).collect()),
    }
}

/// The compact JSON text of `j` as `serde_json` writes it (`Value::to_string`).
///
/// The text is named, not spelled out: it is `serde_json`'s compact writer applied to
/// the value of `serde_value`, and depends on `j` alone.
#[verifier::external_body]
fn serde_json_to_string(j: &Json) -> (s: String)
    ensures
        s@ == serde_json_text(*j),
{
    serde_value(j).to_string()
}

impl Json {
    /// The compact JSON text of this value (`serde_json`'s `to_string` form).
    pub fn to_json_string(&self) -> (s: String)
        ensures
            s@ == serde_json_text(*self),
    {
        serde_json_to_string(self)
    }
}


/// The text of the string member `key` of `j`, if it is present and a string
/// (`j[key].as_str()`).
pub open spec fn member_str_spec(j: Json, key: Seq<char>) -> Option<Seq<char>> {
    match j.get_spec(key) {
        Some(v) => v.as_str_spec(),
        None => None,
    }
}

/// The text of the string member `key`, or `default` (`j[key].as_str().unwrap_or(default)`).
pub open spec fn member_str_or(j: Json, key: Seq<char>, default: Seq<char>) -> Seq<char> {
    match member_str_spec(j, key) {
        Some(s) => s,
        None => default,
    }
}

/// The elements of the array member `key`, if it is present and an array.
pub open spec fn member_array_spec(j: Json, key: Seq<char>) -> Option<Seq<Json>> {
    match j.get_spec(key) {
        Some(Json::Array(v)) => Some(v@),
        _ => None,
    }
}

impl Json {
    /// The text of the string member `key`, if it is present and a string.
    pub fn member_str(&self, key: &str) -> (r: Option<&str>)
        ensures
            r matches Some(s) ==> member_str_spec(*self, key@) == Some(s@),
            r is None ==> member_str_spec(*self, key@) is None,
    {
        match self.get(key) {
            Some(v) => v.as_str(),
            None => None,
        }
    }

    /// The text of the string member `key` as an owned string, or `default`.
    pub fn member_str_or(&self, key: &str, default: &str) -> (r: String)
        ensures
            r@ == member_str_or(*self, key@, default@),
    {
        match self.member_str(key) {
            Some(s) => s.to_owned(),
            None => default.to_owned(),
        }
    }

    /// The elements of the array member `key`, if it is present and an array.
    pub fn member_array(&self, key: &str) -> (r: Option<&Vec<Json>>)
        ensures
            r matches Some(v) ==> member_array_spec(*self, key@) == Some(v@),
            r is None ==> member_array_spec(*self, key@) is None,
    {
        match self.get(key) {
            Some(Json::Array(v)) => Some(v),
            _ => None,
        }
    }
}

} // verus!
