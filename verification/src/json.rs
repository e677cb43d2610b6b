//! JSON documents, held as text and read one level at a time.
//!
//! A [`Document`] is the text of one JSON value. The library never looks
//! inside the text itself: `serde_json` reads it, one level per call, and
//! hands back plain strings and numbers. The parts of an object or an array
//! come back as documents in compact form, the text that `serde_json` writes
//! for the value it has read, which denotes the same value as the source
//! but need not repeat its characters.
//!
//! What `serde_json` makes of a text depends on the text alone, so each
//! reading has a name in specifications ([`json_object`], [`json_array`],
//! [`json_u64`], [`json_string`], [`json_pretty`]), and the functions of this
//! module say exactly how their results follow from those names.

use vstd::prelude::*;
use vstd::string::*;

verus! {

/// `serde_json::Error`: why a text could not be read as the JSON that was
/// asked for. Nothing is said of its content.
#[verifier::external_type_specification]
#[verifier::external_body]
pub struct ExJsonError(serde_json::Error);

/// The text of one JSON value: a record, an envelope, or any part of them.
#[derive(Clone, Debug, PartialEq, Eq)]
pub struct Document {
    text: String,
}

impl View for Document {
    type V = Seq<char>;

    closed spec fn view(&self) -> Seq<char> {
        self.text@
    }
}

/// One member of a JSON object: its name and its value.
#[derive(Clone, Debug, PartialEq, Eq)]
pub struct Field {
    /// The member's name, unescaped.
    pub name: String,
    /// The member's value.
    pub value: Document,
}

impl View for Field {
    type V = (Seq<char>, Seq<char>);

    open spec fn view(&self) -> (Seq<char>, Seq<char>) {
        (self.name@, self.value@)
    }
}

/// The views of a sequence of documents.
pub open spec fn documents(items: Seq<Document>) -> Seq<Seq<char>> {
    items.map_values(|d: Document| d@)
}

/// The views of a sequence of members.
pub open spec fn fields(items: Seq<Field>) -> Seq<(Seq<char>, Seq<char>)> {
    items.map_values(|f: Field| f@)
}

/// The view of an optional document.
pub open spec fn opt_document(item: Option<Document>) -> Option<Seq<char>> {
    match item {
        Some(d) => Some(d@),
        None => None,
    }
}

/// The members of the JSON object that `text` denotes, each as its name and
/// the compact text that `serde_json::to_string` gives of its value, as
/// `serde_json::from_str` reads them into a map ordered by name; `None` if
/// `text` is not one JSON object that `serde_json` reads.
pub uninterp spec fn json_object(text: Seq<char>) -> Option<Seq<(Seq<char>, Seq<char>)>>;

/// The elements of the JSON array that `text` denotes, in the array's
/// order, each as the compact text that `serde_json::to_string` gives of
/// it, as `serde_json::from_str` reads them; `None` if `text` is not one
/// JSON array that `serde_json` reads.
pub uninterp spec fn json_array(text: Seq<char>) -> Option<Seq<Seq<char>>>;

/// The number that `text` denotes, as `serde_json::from_str` reads a `u64`;
/// `None` if `text` is not one such number.
pub uninterp spec fn json_u64(text: Seq<char>) -> Option<u64>;

/// The string that `text` denotes, unescaped, as `serde_json::from_str` reads
/// a `String`; `None` if `text` is not one JSON string.
pub uninterp spec fn json_string(text: Seq<char>) -> Option<Seq<char>>;

/// The indented text that `serde_json::to_string_pretty` gives of the value
/// that `serde_json::from_str` reads from `text`; `None` if `text` is not
/// one JSON value that `serde_json` reads.
pub uninterp spec fn json_pretty(text: Seq<char>) -> Option<Seq<char>>;

/// Calls `serde_json::from_str` for a map from names to values, and copies
/// the map's entries out in the map's order, each value as the text that
/// `serde_json::to_string` gives of it. The contract claims that the entries
/// are those that [`json_object`] names for this text, and that the calls
/// fail exactly when [`json_object`] names none.
#[verifier::external_body]
fn read_object(text: &str) -> (r: Result<Vec<Field>, serde_json::Error>)
    ensures
        match r {
            Ok(members) => json_object(text@) == Some(fields(members@)),
            Err(_) => json_object(text@) is None,
        },
{
    let members =
        serde_json::from_str::<std::collections::BTreeMap<String, serde_json::Value>>(text)?;
    members.into_iter().map(
        |(name, value)| Ok(Field { name, value: Document { text: serde_json::to_string(&value)? } }),
    ).collect()
}

/// Calls `serde_json::from_str` for a vector of values, and copies the
/// elements out in order, each as the text that `serde_json::to_string`
/// gives of it. The contract claims that the elements are those that
/// [`json_array`] names for this text, and that the calls fail exactly when
/// [`json_array`] names none.
#[verifier::external_body]
fn read_array(text: &str) -> (r: Result<Vec<Document>, serde_json::Error>)
    ensures
        match r {
            Ok(elements) => json_array(text@) == Some(documents(elements@)),
            Err(_) => json_array(text@) is None,
        },
{
    let elements = serde_json::from_str::<Vec<serde_json::Value>>(text)?;
    elements.iter().map(|value| Ok(Document { text: serde_json::to_string(value)? })).collect()
}

/// Calls `serde_json::from_str` for a `u64`. The contract claims that the
/// number is the one that [`json_u64`] names for this text, and that the call
/// fails exactly when [`json_u64`] names none.
#[verifier::external_body]
fn read_u64(text: &str) -> (r: Result<u64, serde_json::Error>)
    ensures
        match r {
            Ok(n) => json_u64(text@) == Some(n),
            Err(_) => json_u64(text@) is None,
        },
{
    serde_json::from_str::<u64>(text)
}

/// Calls `serde_json::from_str` for a `String`. The contract claims that the
/// string is the one that [`json_string`] names for this text, and that the
/// call fails exactly when [`json_string`] names none.
#[verifier::external_body]
fn read_string(text: &str) -> (r: Result<String, serde_json::Error>)
    ensures
        match r {
            Ok(s) => json_string(text@) == Some(s@),
            Err(_) => json_string(text@) is None,
        },
{
    serde_json::from_str::<String>(text)
}

/// Calls `serde_json::to_string_pretty` on the `serde_json::Value` that
/// `serde_json::from_str` reads from the text. The contract claims that the
/// rendering is the one that [`json_pretty`] names for this text, and that
/// the calls fail exactly when [`json_pretty`] names none.
#[verifier::external_body]
fn read_pretty(text: &str) -> (r: Result<String, serde_json::Error>)
    ensures
        match r {
            Ok(s) => json_pretty(text@) == Some(s@),
            Err(_) => json_pretty(text@) is None,
        },
{
    let value = serde_json::from_str::<serde_json::Value>(text)?;
    serde_json::to_string_pretty(&value)
}

/// Whether `text` denotes one JSON value, of whatever kind, that
/// `serde_json` reads whole. `serde_json` reads values nested up to 128
/// levels deep and no deeper.
pub open spec fn is_json(text: Seq<char>) -> bool {
    json_pretty(text) is Some
}

/// The value of the first member called `name`, if there is one.
pub open spec fn lookup(members: Seq<(Seq<char>, Seq<char>)>, name: Seq<char>) -> Option<
    Seq<char>,
>
    decreases members.len(),
{
    if members.len() == 0 {
        None
    } else if members[0].0 == name {
        Some(members[0].1)
    } else {
        lookup(members.drop_first(), name)
    }
}

/// The value of the member called `name` of the JSON object that `text`
/// denotes; `None` if `text` is no object or the object has no such member.
pub open spec fn member(text: Seq<char>, name: Seq<char>) -> Option<Seq<char>> {
    match json_object(text) {
        Some(members) => lookup(members, name),
        None => None,
    }
}

/// The value of the first member called `name`, if there is one: the
/// members are consumed and the value is handed out.
pub fn take_field(members: Vec<Field>, name: &str) -> (r: Option<Document>)
    ensures
        opt_document(r) == lookup(fields(members@), name@),
{
    let ghost all = fields(members@);
    let mut rest = members;
    let mut i: usize = 0;
    proof {
        assert(all.skip(0) =~= all);
    }
    while i < rest.len()
        invariant
            i <= rest@.len(),
            all == fields(members@),
            fields(rest@) == all,
            lookup(all, name@) == lookup(all.skip(i as int), name@),
        decreases rest@.len() - i,
    {
        proof {
            assert(all[i as int] == rest@[i as int]@);
            assert(all.skip(i as int)[0] == all[i as int]);
            assert(all.skip(i as int).drop_first() =~= all.skip(i + 1));
        }
        if crate::text::same_text(rest[i].name.as_str(), name) {
            let ghost before = rest@;
            let found = rest.swap_remove(i);
            proof {
                assert(found@ == all[i as int]);
            }
            return Some(found.value);
        }
        i += 1;
    }
    proof {
        assert(all.skip(i as int).len() == 0);
    }
    None
}

impl Document {
    /// The document whose text is `text`. The text is not examined: what it
    /// denotes shows when the document is read.
    pub fn new(text: &str) -> (r: Document)
        ensures
            r@ == text@,
    {
        Document { text: String::from_str(text) }
    }

    /// The document whose text is `text`, without copying it.
    pub fn from_string(text: String) -> (r: Document)
        ensures
            r@ == text@,
    {
        Document { text }
    }

    /// The document's text.
    pub fn text(&self) -> (r: &str)
        ensures
            r@ == self@,
    {
        self.text.as_str()
    }

    /// The members of the object that the document denotes; `None` if it
    /// denotes no object.
    pub fn members(&self) -> (r: Option<Vec<Field>>)
        ensures
            match r {
                Some(members) => json_object(self@) == Some(fields(members@)),
                None => json_object(self@) is None,
            },
    {
        match read_object(self.text.as_str()) {
            Ok(members) => Some(members),
            Err(_) => None,
        }
    }

    /// Whether the document denotes one JSON value, of whatever kind.
    pub fn is_valid(&self) -> (r: bool)
        ensures
            r == is_json(self@),
    {
        read_pretty(self.text.as_str()).is_ok()
    }

    /// Whether the document denotes a JSON object.
    pub fn is_object(&self) -> (r: bool)
        ensures
            r == json_object(self@) is Some,
    {
        read_object(self.text.as_str()).is_ok()
    }

    /// The value of the member called `name`; `None` if the document denotes
    /// no object or the object has no such member.
    pub fn get_field(&self, name: &str) -> (r: Option<Document>)
        ensures
            opt_document(r) == member(self@, name@),
    {
        match read_object(self.text.as_str()) {
            Ok(members) => take_field(members, name),
            Err(_) => None,
        }
    }

    /// The elements of the array that the document denotes; `None` if it
    /// denotes no array.
    pub fn elements(&self) -> (r: Option<Vec<Document>>)
        ensures
            match r {
                Some(elements) => json_array(self@) == Some(documents(elements@)),
                None => json_array(self@) is None,
            },
    {
        match read_array(self.text.as_str()) {
            Ok(elements) => Some(elements),
            Err(_) => None,
        }
    }

    /// The number that the document denotes; `None` if it denotes anything
    /// but a whole number from 0 to `u64::MAX`.
    pub fn as_u64(&self) -> (r: Option<u64>)
        ensures
            r == json_u64(self@),
    {
        match read_u64(self.text.as_str()) {
            Ok(n) => Some(n),
            Err(_) => None,
        }
    }

    /// The string that the document denotes, unescaped; `None` if it denotes
    /// no string.
    pub fn as_text(&self) -> (r: Option<String>)
        ensures
            crate::text::opt_text(r) == json_string(self@),
    {
        match read_string(self.text.as_str()) {
            Ok(s) => Some(s),
            Err(_) => None,
        }
    }

    /// The document's value, indented for reading; `None` if the text
    /// denotes no JSON value.
    pub fn pretty(&self) -> (r: Option<String>)
        ensures
            crate::text::opt_text(r) == json_pretty(self@),
    {
        match read_pretty(self.text.as_str()) {
            Ok(s) => Some(s),
            Err(_) => None,
        }
    }
}

} // verus!
