use vstd::prelude::*;

verus! {

/// A JSON document as the library reads it. Object members keep their order
/// and are looked up by their first occurrence.
#[derive(Debug, PartialEq, Eq)]
pub enum JsonValue {
    Null,
    Bool(bool),
    /// A number, held as its decimal text.
    Number(String),
    Str(String),
    Array(Vec<JsonValue>),
    Object(Vec<JsonMember>),
}

/// One `key: value` member of a JSON object.
#[derive(Debug, PartialEq, Eq)]
pub struct JsonMember {
    pub key: String,
    pub value: JsonValue,
}

/// The value of the first member named `key`.
pub open spec fn member(members: Seq<JsonMember>, key: Seq<char>) -> Option<JsonValue>
    decreases members.len(),
{
    if members.len() == 0 {
        None
    } else if members[0].key@ == key {
        Some(members[0].value)
    } else {
        member(members.drop_first(), key)
    }
}

/// The member `key` of an object; `None` for any other value.
pub open spec fn field(v: JsonValue, key: Seq<char>) -> Option<JsonValue> {
    match v {
        JsonValue::Object(m) => member(m@, key),
        _ => None,
    }
}

/// The element at `i` of an array; `None` for any other value.
pub open spec fn element(v: JsonValue, i: int) -> Option<JsonValue> {
    match v {
        JsonValue::Array(a) => if 0 <= i < a@.len() {
            Some(a@[i])
        } else {
            None
        },
        _ => None,
    }
}

/// Follows a chain of member names from `v`.
pub open spec fn path(v: JsonValue, keys: Seq<Seq<char>>) -> Option<JsonValue>
    decreases keys.len(),
{
    if keys.len() == 0 {
        Some(v)
    } else {
        match field(v, keys[0]) {
            Some(w) => path(w, keys.drop_first()),
            None => None,
        }
    }
}

proof fn lemma_member_skip(m: Seq<JsonMember>, key: Seq<char>, i: int)
    requires
        0 <= i <= m.len(),
        forall|j: int| 0 <= j < i ==> m[j].key@ != key,
    ensures
        member(m, key) == member(m.subrange(i, m.len() as int), key),
    decreases i,
{
    if i > 0 {
        assert(m.drop_first().subrange(i - 1, m.len() - 1) =~= m.subrange(i, m.len() as int));
        lemma_member_skip(m.drop_first(), key, i - 1);
    } else {
        assert(m.subrange(0, m.len() as int) =~= m);
    }
}

impl JsonValue {
    /// The member `key` of an object.
    pub fn get_field(&self, key: &str) -> (r: Option<&JsonValue>)
        ensures
            match field(*self, key@) {
                Some(w) => r is Some && *r->Some_0 == w,
                None => r is None,
            },
    {
        match self {
            JsonValue::Object(m) => {
                let ghost s = m@;
                let mut i: usize = 0;
                while i < m.len()
                    invariant
                        0 <= i <= s.len(),
                        s == m@,
                        *self == JsonValue::Object(*m),
                        forall|j: int| 0 <= j < i ==> s[j].key@ != key@,
                    decreases s.len() - i,
                {
                    if crate::model::str_eq(m[i].key.as_str(), key) {
                        proof {
                            lemma_member_skip(s, key@, i as int);
                            assert(s.subrange(i as int, s.len() as int)[0] == s[i as int]);
                        }
                        return Some(&m[i].value);
                    }
                    i = i + 1;
                }
                proof {
                    lemma_member_skip(s, key@, i as int);
                }
                None
            },
            _ => None,
        }
    }

    /// The element at `i` of an array.
    pub fn get_index(&self, i: usize) -> (r: Option<&JsonValue>)
        ensures
            match element(*self, i as int) {
                Some(w) => r is Some && *r->Some_0 == w,
                None => r is None,
            },
    {
        match self {
            JsonValue::Array(a) => if i < a.len() {
                Some(&a[i])
            } else {
                None
            },
            _ => None,
        }
    }

    /// The text of a string value.
    pub fn as_text(&self) -> (r: Option<&String>)
        ensures
            match *self {
                JsonValue::Str(s) => r is Some && *r->Some_0 == s,
                _ => r is None,
            },
    {
        match self {
            JsonValue::Str(s) => Some(s),
            _ => None,
        }
    }
}

} // verus!
