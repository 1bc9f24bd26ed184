//! The parts of a JSON document that the daemon reads.
use vstd::prelude::*;

use serde_json::Value;

use crate::text::same_text;

verus! {

/// The fields of a JSON object, each with the text of its value when that value
/// is a string, in the order in which the parsed object holds its keys
/// (`serde_json` keeps them sorted by key).
pub type JsonFields = Vec<(String, Option<String>)>;

/// A JSON document as the daemon reads it: the entries of a top-level array or
/// object, each seen through its fields when it is itself an object.
#[derive(Debug)]
pub enum JsonDocument {
    /// A top-level array; each element is `Some(fields)` when it is an object.
    Array(Vec<Option<JsonFields>>),
    /// A top-level object; each member is its key with `Some(fields)` when its
    /// value is an object.
    Object(Vec<(String, Option<JsonFields>)>),
    /// Any other top-level value.
    Other,
}

/// The fields of an object, each key with the text of its value when it is a string.
pub type FieldsView = Seq<(Seq<char>, Option<Seq<char>>)>;

/// What a `JsonDocument` holds, as text.
pub enum DocumentView {
    Array(Seq<Option<FieldsView>>),
    Object(Seq<(Seq<char>, Option<FieldsView>)>),
    Other,
}

pub open spec fn text_view(t: Option<String>) -> Option<Seq<char>> {
    match t {
        Some(s) => Some(s@),
        None => None,
    }
}

pub open spec fn fields_view(fields: JsonFields) -> FieldsView {
    fields@.map_values(|f: (String, Option<String>)| (f.0@, text_view(f.1)))
}

pub open spec fn entry_view(entry: Option<JsonFields>) -> Option<FieldsView> {
    match entry {
        Some(fields) => Some(fields_view(fields)),
        None => None,
    }
}

impl View for JsonDocument {
    type V = DocumentView;

    open spec fn view(&self) -> DocumentView {
        match self {
            JsonDocument::Array(items) => DocumentView::Array(
                items@.map_values(|e: Option<JsonFields>| entry_view(e)),
            ),
            JsonDocument::Object(members) => DocumentView::Object(
                members@.map_values(|m: (String, Option<JsonFields>)| (m.0@, entry_view(m.1))),
            ),
            JsonDocument::Other => DocumentView::Other,
        }
    }
}

/// What `serde_json` makes of some bytes: the document read from them, or the
/// text of the error that it reports.
pub uninterp spec fn json_document(bytes: Seq<u8>) -> Result<DocumentView, Seq<char>>;

pub open spec fn parse_outcome(res: Result<JsonDocument, String>) -> Result<DocumentView, Seq<char>> {
    match res {
        Ok(doc) => Ok(doc@),
        Err(e) => Err(e@),
    }
}

/// Reads `bytes` as JSON with `serde_json::from_slice::<serde_json::Value>`.
/// Of a top-level array or object it keeps each entry, and of an entry that is
/// an object each key, with the value's text when the value is a string; of an
/// error it keeps the `Display` text.
///
/// The contract claims only that the outcome is a function of the bytes, the
/// name `json_document`: which bytes are JSON, and what they hold, is
/// `serde_json`'s to decide and is not stated here.
#[verifier::external_body]
pub(crate) fn parse_json(bytes: &[u8]) -> (res: Result<JsonDocument, String>)
    ensures
        parse_outcome(res) == json_document(bytes@),
{
    let entry = |x: &Value| x.as_object().map(|m| m.iter().map(|(k, v)| (k.clone(), v.as_str().map(String::from))).collect());
    match serde_json::from_slice::<Value>(bytes) {
        Ok(Value::Array(a)) => Ok(JsonDocument::Array(a.iter().map(entry).collect())),
        Ok(Value::Object(m)) => Ok(JsonDocument::Object(m.iter().map(|(k, v)| (k.clone(), entry(v))).collect())),
        Ok(_) => Ok(JsonDocument::Other),
        Err(e) => Err(e.to_string()),
    }
}

/// What the first field named `key` holds: `None` when there is none,
/// `Some(None)` when its value is not a string, else `Some(Some(text))`.
pub open spec fn field_of(fields: FieldsView, key: Seq<char>) -> Option<Option<Seq<char>>>
    decreases fields.len(),
{
    if fields.len() == 0 {
        None
    } else if fields[0].0 == key {
        Some(fields[0].1)
    } else {
        field_of(fields.drop_first(), key)
    }
}

/// Looks up the field `key` of an object.
pub fn field(fields: &JsonFields, key: &str) -> (res: Option<Option<String>>)
    ensures
        match res {
            None => field_of(fields_view(*fields), key@) is None,
            Some(t) => field_of(fields_view(*fields), key@) == Some(text_view(t)),
        },
{
    let ghost all = fields_view(*fields);
    assert(all.subrange(0, all.len() as int) =~= all);
    let mut i: usize = 0;
    while i < fields.len()
        invariant
            all == fields_view(*fields),
            i <= fields.len(),
            field_of(all, key@) == field_of(all.subrange(i as int, all.len() as int), key@),
        decreases fields.len() - i,
    {
        let ghost rest = all.subrange(i as int, all.len() as int);
        assert(rest[0] == all[i as int]);
        assert(rest.drop_first() =~= all.subrange(i + 1, all.len() as int));
        if same_text(fields[i].0.as_str(), key) {
            let value = match &fields[i].1 {
                Some(t) => Some(t.clone()),
                None => None,
            };
            return Some(value);
        }
        i = i + 1;
    }
    None
}

} // verus!
