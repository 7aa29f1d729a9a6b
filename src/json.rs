use vstd::prelude::*;
use vstd::string::*;

verus! {

/// A JSON value as serde_json parses it. Integers are kept exactly where
/// they fit 64 bits; other numbers are kept by their text.
#[derive(Debug)]
pub enum Json {
    Null,
    Bool(bool),
    UInt(u64),
    Int(i64),
    Fraction(String),
    Str(String),
    Array(Vec<Json>),
    /// Members in order: name and value.
    Object(Vec<(String, Json)>),
}

#[verifier::external_type_specification]
#[verifier::external_body]
pub struct ExValue(serde_json::Value);

/// What serde_json parses a text to, if it is one JSON value.
pub uninterp spec fn parsed_json(text: Seq<char>) -> Option<Json>;

/// serde_json's JSON string literal for a text: quoted and escaped.
pub uninterp spec fn quoted_json(text: Seq<char>) -> Seq<char>;

/// Converts a serde_json value into the library's model, one variant for one.
#[verifier::external_body]
fn from_value(v: serde_json::Value) -> Json {
    match v {
        serde_json::Value::Null => Json::Null,
        serde_json::Value::Bool(b) => Json::Bool(b),
        serde_json::Value::Number(n) => match (n.as_u64(), n.as_i64()) {
            (Some(u), _) => Json::UInt(u),
            (None, Some(i)) => Json::Int(i),
            (None, None) => Json::Fraction(n.to_string()),
        },
        serde_json::Value::String(s) => Json::Str(s),
        serde_json::Value::Array(items) => Json::Array(items.into_iter().map(from_value).collect()),
        serde_json::Value::Object(m) => Json::Object(m.into_iter().map(|(k, v)| (k, from_value(v))).collect()),
    }
}

/// Relies on serde_json::from_str into a serde_json::Value: the parse
/// depends on the text alone.
#[verifier::external_body]
pub fn parse_json(text: &str) -> (r: Option<Json>)
    ensures
        r == parsed_json(text@),
{
    serde_json::from_str::<serde_json::Value>(text).ok().map(from_value)
}

/// Relies on serde_json::to_string on a str, which writes it as a JSON
/// string literal and cannot fail.
#[verifier::external_body]
pub fn quote_json(text: &str) -> (r: String)
    ensures
        r@ == quoted_json(text@),
{
    match serde_json::to_string(text) {
        Ok(s) => s,
        Err(_) => String::new(),
    }
}

/// The value of the first member named `key`.
pub open spec fn member(entries: Seq<(String, Json)>, key: Seq<char>) -> Option<Json>
    decreases entries.len(),
{
    if entries.len() == 0 {
        None
    } else if entries[0].0@ == key {
        Some(entries[0].1)
    } else {
        member(entries.drop_first(), key)
    }
}

/// The member `key` of an object; nothing for any other value.
pub open spec fn json_field(j: Json, key: Seq<char>) -> Option<Json> {
    match j {
        Json::Object(entries) => member(entries@, key),
        _ => None,
    }
}

impl Json {
    /// The member `key` of an object.
    pub fn get(&self, key: &str) -> (r: Option<&Json>)
        ensures
            match r {
                Some(v) => json_field(*self, key@) == Some(*v),
                None => json_field(*self, key@) is None,
            },
    {
        match self {
            Json::Object(entries) => {
                assert(json_field(*self, key@) == member(entries@, key@));
                let wanted = String::from_str(key);
                let mut i: usize = 0;
                assert(entries@.subrange(0, entries@.len() as int) =~= entries@);
                while i < entries.len()
                    invariant
                        i <= entries@.len(),
                        wanted@ == key@,
                        json_field(*self, key@) == member(entries@, key@),
                        member(entries@, key@) == member(entries@.subrange(i as int, entries@.len() as int), key@),
                    decreases entries@.len() - i,
                {
                    let ghost rest = entries@.subrange(i as int, entries@.len() as int);
                    assert(rest.drop_first() =~= entries@.subrange(i + 1, entries@.len() as int));
                    assert(rest[0] == entries@[i as int]);
                    let same = entries[i].0 == wanted;
                    if same {
                        assert(member(rest, key@) == Some(rest[0].1));
                        return Some(&entries[i].1);
                    }
                    i = i + 1;
                }
                None
            },
            _ => None,
        }
    }

    /// Whether the value is an array.
    pub fn is_array(&self) -> (r: bool)
        ensures
            r == (*self is Array),
    {
        match self {
            Json::Array(_) => true,
            _ => false,
        }
    }
}

} // verus!
