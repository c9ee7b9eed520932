use vstd::prelude::*;

verus! {

/// One key/value pair of an event, both already decoded to text.
#[derive(Debug, PartialEq, Eq)]
pub struct Attribute {
    pub key: String,
    pub value: String,
}

/// A typed event with its attributes, in the order the chain emitted them.
#[derive(Debug, PartialEq, Eq)]
pub struct Event {
    pub kind: String,
    pub attributes: Vec<Attribute>,
}

/// A transaction as carried by one subscription message.
#[derive(Debug, PartialEq, Eq)]
pub struct Transaction {
    pub tx_hash: String,
    pub events: Vec<Event>,
}

/// The value of the first attribute whose key is `key`, if any.
pub open spec fn lookup(attrs: Seq<Attribute>, key: Seq<char>) -> Option<Seq<char>>
    decreases attrs.len(),
{
    if attrs.len() == 0 {
        None
    } else if attrs[0].key@ == key {
        Some(attrs[0].value@)
    } else {
        lookup(attrs.drop_first(), key)
    }
}

/// Skipping a prefix whose keys all differ from `key` does not change the lookup.
pub proof fn lemma_lookup_skip(attrs: Seq<Attribute>, key: Seq<char>, i: int)
    requires
        0 <= i <= attrs.len(),
        forall|j: int| 0 <= j < i ==> attrs[j].key@ != key,
    ensures
        lookup(attrs, key) == lookup(attrs.subrange(i, attrs.len() as int), key),
    decreases i,
{
    if i > 0 {
        assert(attrs.drop_first().subrange(i - 1, attrs.len() - 1) =~= attrs.subrange(
            i,
            attrs.len() as int,
        ));
        lemma_lookup_skip(attrs.drop_first(), key, i - 1);
    } else {
        assert(attrs.subrange(0, attrs.len() as int) =~= attrs);
    }
}

/// Errors that a handled event can end with.
#[derive(Debug, PartialEq, Eq)]
pub enum HandlerError {
    /// A required event attribute is absent; carries the key.
    MissingAttribute(String),
    /// A chain or metadata query failed or returned an unusable shape.
    Query(String),
    /// A storage operation failed.
    Persistence(String),
    /// A transport-level failure of a chain call.
    Transport(String),
    /// A binary or hash decoding failure.
    Decode(String),
}

impl HandlerError {
    /// The text recorded with a failed event.
    pub fn message(&self) -> (r: String)
        ensures
            r@ == self.message_spec(),
    {
        match self {
            HandlerError::MissingAttribute(k) => String::from_str("missing attribute ").concat(
                k.as_str(),
            ),
            HandlerError::Query(m) => String::from_str("query error: ").concat(m.as_str()),
            HandlerError::Persistence(m) => String::from_str("database error: ").concat(m.as_str()),
            HandlerError::Transport(m) => String::from_str("transport error: ").concat(m.as_str()),
            HandlerError::Decode(m) => String::from_str("decode error: ").concat(m.as_str()),
        }
    }

    pub open spec fn message_spec(&self) -> Seq<char> {
        match self {
            HandlerError::MissingAttribute(k) => "missing attribute "@ + k@,
            HandlerError::Query(m) => "query error: "@ + m@,
            HandlerError::Persistence(m) => "database error: "@ + m@,
            HandlerError::Transport(m) => "transport error: "@ + m@,
            HandlerError::Decode(m) => "decode error: "@ + m@,
        }
    }
}

/// The value of the first attribute of `event` whose key is `key`.
pub fn find_attribute(event: &Event, key: &str) -> (r: Result<String, HandlerError>)
    ensures
        match lookup(event.attributes@, key@) {
            Some(v) => r is Ok && r->Ok_0@ == v,
            None => r is Err && r->Err_0 is MissingAttribute && r->Err_0->MissingAttribute_0@
                == key@,
        },
{
    let attrs = &event.attributes;
    let ghost s = event.attributes@;
    let mut i: usize = 0;
    while i < attrs.len()
        invariant
            0 <= i <= s.len(),
            s == attrs@,
            s == event.attributes@,
            forall|j: int| 0 <= j < i ==> s[j].key@ != key@,
        decreases s.len() - i,
    {
        if str_eq(attrs[i].key.as_str(), key) {
            proof {
                lemma_lookup_skip(s, key@, i as int);
                let rest = s.subrange(i as int, s.len() as int);
                assert(rest[0] == s[i as int]);
                assert(rest[0].key@ == key@);
                assert(lookup(rest, key@) == Some(s[i as int].value@));
            }
            let v = attrs[i].value.clone();
            assert(v@ == s[i as int].value@);
            return Ok(v);
        }
        i = i + 1;
    }
    proof {
        lemma_lookup_skip(s, key@, i as int);
    }
    Err(HandlerError::MissingAttribute(String::from_str(key)))
}

/// Character-wise equality of two strings.
pub fn str_eq(a: &str, b: &str) -> (r: bool)
    ensures
        r == (a@ == b@),
{
    let n = a.unicode_len();
    if n != b.unicode_len() {
        return false;
    }
    let mut i: usize = 0;
    while i < n
        invariant
            n == a@.len(),
            n == b@.len(),
            0 <= i <= n,
            forall|j: int| 0 <= j < i ==> a@[j] == b@[j],
        decreases n - i,
    {
        if a.get_char(i) != b.get_char(i) {
            return false;
        }
        i = i + 1;
    }
    assert(a@ =~= b@);
    true
}

} // verus!
