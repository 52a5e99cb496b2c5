//! JSON documents as plain trees.
//!
//! Reading a text into a tree is the work of `serde_json`; everything that
//! looks into a tree afterwards is verified here.

use vstd::prelude::*;
use crate::text::same_text;

verus! {

/// A JSON number, as the three readings that `serde_json` offers of it.
#[derive(Debug, Clone, Copy, PartialEq, Eq)]
pub struct JsonNumber {
    /// The number as a signed integer, where it is one that fits.
    pub signed: Option<i64>,
    /// The number as an unsigned integer, where it is one that fits.
    pub unsigned: Option<u64>,
    /// The number as a binary64 value, given by its bit pattern.
    pub real_bits: Option<u64>,
}

/// One member of a JSON object.
#[derive(Debug, PartialEq, Eq)]
pub struct JsonMember {
    pub key: String,
    pub value: JsonValue,
}

/// A JSON document.
#[derive(Debug, PartialEq, Eq)]
pub enum JsonValue {
    Null,
    Bool(bool),
    Number(JsonNumber),
    Text(String),
    Array(Vec<JsonValue>),
    Object(Vec<JsonMember>),
}

/// `serde_json::Value`, as the reader hands it over. Nothing is known of
/// what it holds until it is copied into a [`JsonValue`].
#[verifier::external_type_specification]
#[verifier::external_body]
pub struct ExSerdeValue(serde_json::Value);

/// What `serde_json::from_str` makes of a text: the document it reads, or the
/// message of the error it reports.
pub uninterp spec fn json_document(text: Seq<char>) -> Result<JsonValue, Seq<char>>;

/// The JSON string literal that `serde_json::to_string` writes for a text,
/// quotes and escapes included.
pub uninterp spec fn json_quoted(text: Seq<char>) -> Seq<char>;

/// The value of the first member of `members` whose key is `key`.
pub open spec fn find_member(members: Seq<JsonMember>, key: Seq<char>) -> Option<JsonValue>
    decreases members.len(),
{
    if members.len() == 0 {
        None
    } else if members[0].key@ == key {
        Some(members[0].value)
    } else {
        find_member(members.drop_first(), key)
    }
}

impl JsonValue {
    /// The member `key` of an object; nothing for any other value.
    pub open spec fn member(self, key: Seq<char>) -> Option<JsonValue> {
        match self {
            JsonValue::Object(members) => find_member(members@, key),
            _ => None,
        }
    }

    /// The members of an object.
    pub open spec fn members(self) -> Option<Seq<JsonMember>> {
        match self {
            JsonValue::Object(members) => Some(members@),
            _ => None,
        }
    }

    /// The items of an array.
    pub open spec fn items(self) -> Option<Seq<JsonValue>> {
        match self {
            JsonValue::Array(items) => Some(items@),
            _ => None,
        }
    }

    /// The characters of a string.
    pub open spec fn text(self) -> Option<Seq<char>> {
        match self {
            JsonValue::Text(text) => Some(text@),
            _ => None,
        }
    }

    /// The truth value of a boolean.
    pub open spec fn truth(self) -> Option<bool> {
        match self {
            JsonValue::Bool(b) => Some(b),
            _ => None,
        }
    }

    /// A number read as a signed integer.
    pub open spec fn signed(self) -> Option<i64> {
        match self {
            JsonValue::Number(n) => n.signed,
            _ => None,
        }
    }

    /// A number read as an unsigned integer.
    pub open spec fn unsigned(self) -> Option<u64> {
        match self {
            JsonValue::Number(n) => n.unsigned,
            _ => None,
        }
    }

    /// A number read as a binary64 bit pattern.
    pub open spec fn real_bits(self) -> Option<u64> {
        match self {
            JsonValue::Number(n) => n.real_bits,
            _ => None,
        }
    }

    /// Looks a key up in an object.
    pub fn get(&self, key: &str) -> (r: Option<&JsonValue>)
        ensures
            match r {
                Some(v) => self.member(key@) == Some(*v),
                None => self.member(key@) is None,
            },
    {
        match self {
            JsonValue::Object(members) => {
                let mut i: usize = 0;
                assert(members@.subrange(0, members@.len() as int) =~= members@);
                while i < members.len()
                    invariant
                        i <= members.len(),
                        self.member(key@) == find_member(members@, key@),
                        find_member(members@, key@) == find_member(
                            members@.subrange(i as int, members@.len() as int),
                            key@,
                        ),
                    decreases members.len() - i,
                {
                    let rest = Ghost(members@.subrange(i as int, members@.len() as int));
                    assert(rest@.drop_first() =~= members@.subrange(
                        i as int + 1,
                        members@.len() as int,
                    ));
                    if same_text(members[i].key.as_str(), key) {
                        return Some(&members[i].value);
                    }
                    i += 1;
                }
                None
            },
            _ => None,
        }
    }

    /// The members of an object, in the order in which they were read.
    pub fn as_object(&self) -> (r: Option<&Vec<JsonMember>>)
        ensures
            match r {
                Some(m) => self.members() == Some(m@),
                None => self.members() is None,
            },
    {
        match self {
            JsonValue::Object(members) => Some(members),
            _ => None,
        }
    }

    /// The items of an array.
    pub fn as_array(&self) -> (r: Option<&Vec<JsonValue>>)
        ensures
            match r {
                Some(a) => self.items() == Some(a@),
                None => self.items() is None,
            },
    {
        match self {
            JsonValue::Array(items) => Some(items),
            _ => None,
        }
    }

    /// The text of a string.
    pub fn as_str(&self) -> (r: Option<&str>)
        ensures
            match r {
                Some(s) => self.text() == Some(s@),
                None => self.text() is None,
            },
    {
        match self {
            JsonValue::Text(text) => Some(text.as_str()),
            _ => None,
        }
    }

    /// The truth value of a boolean.
    pub fn as_bool(&self) -> (r: Option<bool>)
        ensures
            r == self.truth(),
    {
        match self {
            JsonValue::Bool(b) => Some(*b),
            _ => None,
        }
    }

    /// A number as a signed integer.
    pub fn as_i64(&self) -> (r: Option<i64>)
        ensures
            r == self.signed(),
    {
        match self {
            JsonValue::Number(n) => n.signed,
            _ => None,
        }
    }

    /// A number as an unsigned integer.
    pub fn as_u64(&self) -> (r: Option<u64>)
        ensures
            r == self.unsigned(),
    {
        match self {
            JsonValue::Number(n) => n.unsigned,
            _ => None,
        }
    }

    /// A number as the bit pattern of a binary64 value.
    pub fn as_real_bits(&self) -> (r: Option<u64>)
        ensures
            r == self.real_bits(),
    {
        match self {
            JsonValue::Number(n) => n.real_bits,
            _ => None,
        }
    }
}

/// The member `key` of a document, read as a signed integer.
pub open spec fn signed_member(document: JsonValue, key: Seq<char>) -> Option<i64> {
    match document.member(key) {
        Some(value) => value.signed(),
        None => None,
    }
}

/// The member `key` of a document, read as an unsigned integer.
pub open spec fn unsigned_member(document: JsonValue, key: Seq<char>) -> Option<u64> {
    match document.member(key) {
        Some(value) => value.unsigned(),
        None => None,
    }
}

/// The member `key` of a document, read as a text.
pub open spec fn text_member(document: JsonValue, key: Seq<char>) -> Option<Seq<char>> {
    match document.member(key) {
        Some(value) => value.text(),
        None => None,
    }
}

/// The member `key` of a document, read as an object.
pub open spec fn object_member(document: JsonValue, key: Seq<char>) -> Option<Seq<JsonMember>> {
    match document.member(key) {
        Some(value) => value.members(),
        None => None,
    }
}

/// Copies a `serde_json::Value` into a tree, variant by variant; a number is
/// kept as what `as_i64`, `as_u64` and `as_f64` return for it.
#[verifier::external_body]
fn tree_of(value: &serde_json::Value) -> JsonValue {
    match value {
        serde_json::Value::Null => JsonValue::Null,
        serde_json::Value::Bool(b) => JsonValue::Bool(*b),
        serde_json::Value::Number(n) => {
            let real_bits = n.as_f64().map(|x| x.to_bits());
            JsonValue::Number(JsonNumber { signed: n.as_i64(), unsigned: n.as_u64(), real_bits })
        },
        serde_json::Value::String(s) => JsonValue::Text(s.clone()),
        serde_json::Value::Array(a) => JsonValue::Array(a.iter().map(tree_of).collect()),
        serde_json::Value::Object(o) => JsonValue::Object(
            o.iter().map(|(k, v)| JsonMember { key: k.clone(), value: tree_of(v) }).collect(),
        ),
    }
}

/// Calls `serde_json::from_str`. The document, or the error's message, is
/// known only by its name: the same text always reads as the same document.
#[verifier::external_body]
pub(crate) fn read_document(text: &str) -> (r: Result<JsonValue, String>)
    ensures
        match r {
            Ok(v) => json_document(text@) == Ok::<JsonValue, Seq<char>>(v),
            Err(message) => json_document(text@) == Err::<JsonValue, Seq<char>>(message@),
        },
{
    match serde_json::from_str::<serde_json::Value>(text) {
        Ok(value) => Ok(tree_of(&value)),
        Err(error) => Err(error.to_string()),
    }
}

/// Calls `serde_json::to_string` on a text, which writes it as a JSON string
/// literal.
#[verifier::external_body]
pub(crate) fn quote(text: &str) -> (r: String)
    ensures
        r@ == json_quoted(text@),
{
    serde_json::to_string(text).unwrap_or_default()
}

/// Reads a JSON document from a text.
pub fn parse(text: &str) -> (r: Result<JsonValue, String>)
    ensures
        match r {
            Ok(v) => json_document(text@) == Ok::<JsonValue, Seq<char>>(v),
            Err(message) => json_document(text@) == Err::<JsonValue, Seq<char>>(message@),
        },
{
    read_document(text)
}

} // verus!
