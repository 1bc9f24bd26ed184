//! The answers to the requests that need no rebuild.
use vstd::prelude::*;

use vstd::string::StringExecFns;

use crate::json::{
    entry_view, field, field_of, json_document, parse_json, DocumentView, FieldsView, JsonDocument,
    JsonFields,
};
use crate::protocol::{failure, success, Payload, PayloadView, Response, ResponseView};
use crate::text::same_text;

verus! {

/// Answers a ping.
pub fn ping() -> (res: Response)
    ensures
        res@ == success(Some(PayloadView::Pong)),
{
    Response::ok(Some(Payload::Pong))
}

/// Answers a request line that could not be read as a request.
pub fn parse_error(detail: String) -> (res: Response)
    ensures
        res@ == failure("parse error: "@ + detail@),
{
    let mut msg = String::from_str("parse error: ");
    msg.append(detail.as_str());
    Response::err(msg)
}

/// Reports the daemon's version and whether the package manifest exists.
pub fn status(version: String, manifest_present: bool) -> (res: Response)
    ensures
        res@ == success(Some(PayloadView::Status { version: version@, manifest_present })),
{
    Response::ok(Some(Payload::Status { version, manifest_present }))
}

/// The answer to a listing of the package manifest, given what reading the
/// manifest file gave: its bytes, or the text of the read error.
pub open spec fn list_answer(manifest: Result<Seq<u8>, Seq<char>>) -> ResponseView {
    match manifest {
        Err(e) => failure("manifest unavailable: "@ + e),
        Ok(bytes) => match json_document(bytes) {
            Ok(_) => success(Some(PayloadView::Manifest(bytes))),
            Err(e) => failure("manifest parse error: "@ + e),
        },
    }
}

/// Answers a listing of the package manifest: its content when it holds JSON.
pub fn list(manifest: Result<Vec<u8>, String>) -> (res: Response)
    ensures
        res@ == list_answer(match manifest {
            Ok(bytes) => Ok(bytes@),
            Err(e) => Err(e@),
        }),
{
    match manifest {
        Err(e) => {
            let mut msg = String::from_str("manifest unavailable: ");
            msg.append(e.as_str());
            Response::err(msg)
        },
        Ok(bytes) => match parse_json(bytes.as_slice()) {
            Ok(_) => Response::ok(Some(Payload::Manifest(bytes))),
            Err(e) => {
                let mut msg = String::from_str("manifest parse error: ");
                msg.append(e.as_str());
                Response::err(msg)
            },
        },
    }
}

/// Whether an entry of the manifest is an object whose `name` field is the
/// string `name`.
pub open spec fn entry_is_named(entry: Option<FieldsView>, name: Seq<char>) -> bool {
    match entry {
        Some(fields) => field_of(fields, "name"@) == Some(Some(name)),
        None => false,
    }
}

/// Whether a manifest document lists a package called `name`: it is an array
/// with an entry of that name.
pub open spec fn lists_package(doc: Result<DocumentView, Seq<char>>, name: Seq<char>) -> bool {
    match doc {
        Ok(DocumentView::Array(items)) => exists|i: int|
            0 <= i < items.len() && #[trigger] entry_is_named(items[i], name),
        _ => false,
    }
}

/// Whether a parsed manifest lists a package called `name`: it is an array
/// with an object entry whose `name` field is that string.
pub fn lists_name(doc: &JsonDocument, name: &str) -> (res: bool)
    ensures
        res == lists_package(Ok(doc@), name@),
{
    match doc {
        JsonDocument::Array(items) => {
            let ghost entries = items@.map_values(|e: Option<JsonFields>| entry_view(e));
            let mut found = false;
            let mut i: usize = 0;
            while i < items.len() && !found
                invariant
                    i <= items.len(),
                    entries == items@.map_values(|e: Option<JsonFields>| entry_view(e)),
                    found ==> exists|k: int| 0 <= k < i && #[trigger] entry_is_named(entries[k], name@),
                    !found ==> forall|k: int| 0 <= k < i ==> !#[trigger] entry_is_named(entries[k], name@),
                decreases items.len() - i,
            {
                if let Some(fields) = &items[i] {
                    if let Some(Some(n)) = field(fields, "name") {
                        if same_text(n.as_str(), name) {
                            found = true;
                        }
                    }
                }
                assert(found == entry_is_named(entries[i as int], name@));
                i = i + 1;
            }
            found
        },
        _ => false,
    }
}

/// Answers whether a package is present, given the manifest's bytes when they
/// could be read. An unreadable or malformed manifest lists nothing.
pub fn present(manifest: Option<Vec<u8>>, name: &str) -> (res: Response)
    ensures
        res@ == success(Some(PayloadView::Present(
            manifest matches Some(bytes) && lists_package(json_document(bytes@), name@),
        ))),
{
    let found = match manifest {
        Some(bytes) => match parse_json(bytes.as_slice()) {
            Ok(doc) => lists_name(&doc, name),
            Err(_) => false,
        },
        None => false,
    };
    Response::ok(Some(Payload::Present(found)))
}

} // verus!
