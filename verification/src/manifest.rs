//! The package manifest: the name and version of each store path of the
//! active NixOS generation.
use vstd::prelude::*;

use vstd::string::StringExecFns;

use crate::json::{
    entry_view, field, field_of, json_document, parse_json, DocumentView, FieldsView, JsonDocument,
    JsonFields,
};

verus! {

/// One package of the manifest.
#[derive(Debug)]
pub struct PackageEntry {
    pub name: String,
    pub version: String,
}

impl View for PackageEntry {
    type V = (Seq<char>, Seq<char>);

    open spec fn view(&self) -> (Seq<char>, Seq<char>) {
        (self.name@, self.version@)
    }
}

pub open spec fn entries_view(entries: Seq<PackageEntry>) -> Seq<(Seq<char>, Seq<char>)> {
    entries.map_values(|e: PackageEntry| e@)
}

/// The manifest entry of one path-info record: its `pname`, or its `name` when
/// it has no `pname`, which must be a string, and its `version` string or the
/// empty text. A record that is not an object, or has no such name, gives none.
pub open spec fn entry_of(record: Option<FieldsView>) -> Option<(Seq<char>, Seq<char>)> {
    match record {
        None => None,
        Some(fields) => {
            let name = match field_of(fields, "pname"@) {
                Some(text) => text,
                None => match field_of(fields, "name"@) {
                    Some(text) => text,
                    None => None,
                },
            };
            match name {
                None => None,
                Some(n) => Some(
                    (
                        n,
                        match field_of(fields, "version"@) {
                            Some(Some(v)) => v,
                            _ => Seq::empty(),
                        },
                    ),
                ),
            }
        },
    }
}

/// The version of a manifest entry is the record's `version` string whenever
/// it has one, and the empty text otherwise, whichever field gave the name.
pub proof fn lemma_entry_version_is_the_record_version(fields: FieldsView)
    requires
        entry_of(Some(fields)) is Some,
    ensures
        field_of(fields, "version"@) matches Some(Some(v)) ==> entry_of(Some(fields))->Some_0.1 == v,
        !(field_of(fields, "version"@) matches Some(Some(_))) ==> entry_of(Some(fields))->Some_0.1 == Seq::<char>::empty(),
{
}

/// The name of a manifest entry: a record with a `pname` field gives an entry
/// exactly when that field is a string, named by it; a record without one gives
/// an entry exactly when its `name` field is a string, named by it; a value
/// that is not an object gives none.
pub proof fn lemma_entry_name_is_pname_else_name(fields: FieldsView)
    ensures
        entry_of(None) is None,
        field_of(fields, "pname"@) matches Some(Some(p)) ==> entry_of(Some(fields)) matches Some(e) && e.0 == p,
        field_of(fields, "pname"@) == Some(None::<Seq<char>>) ==> entry_of(Some(fields)) is None,
        field_of(fields, "pname"@) is None ==> {
            &&& field_of(fields, "name"@) matches Some(Some(n)) ==> entry_of(Some(fields)) matches Some(e) && e.0 == n
            &&& !(field_of(fields, "name"@) matches Some(Some(_))) ==> entry_of(Some(fields)) is None
        },
{
}

/// The entries of the path-info records of an object, in the order in which the
/// parsed object holds them (`serde_json` keeps its keys sorted).
pub open spec fn entries_of(records: Seq<(Seq<char>, Option<FieldsView>)>) -> Seq<(Seq<char>, Seq<char>)>
    decreases records.len(),
{
    if records.len() == 0 {
        Seq::empty()
    } else {
        let rest = entries_of(records.drop_last());
        match entry_of(records.last().1) {
            Some(e) => rest.push(e),
            None => rest,
        }
    }
}

/// A `nix path-info` document of one record lists one package: the record's
/// `pname` (or its `name` when it has no `pname`) with its `version` string.
pub proof fn lemma_one_record_manifest(key: Seq<char>, fields: FieldsView, name: Seq<char>, version: Seq<char>)
    requires
        field_of(fields, "pname"@) == Some(Some(name))
            || (field_of(fields, "pname"@) is None && field_of(fields, "name"@) == Some(Some(name))),
        field_of(fields, "version"@) == Some(Some(version)),
    ensures
        manifest_of(DocumentView::Object(seq![(key, Some(fields))])) == seq![(name, version)],
{
    let records = seq![(key, Some(fields))];
    assert(records.drop_last() =~= Seq::<(Seq<char>, Option<FieldsView>)>::empty());
    assert(entries_of(records.drop_last()) == Seq::<(Seq<char>, Seq<char>)>::empty());
    assert(records.last() == (key, Some(fields)));
    assert(entry_of(Some(fields)) == Some((name, version)));
    assert(Seq::<(Seq<char>, Seq<char>)>::empty().push((name, version)) =~= seq![(name, version)]);
}

/// The manifest of a `nix path-info --json` document: the entries of its
/// records when it is an object, else none.
pub open spec fn manifest_of(doc: DocumentView) -> Seq<(Seq<char>, Seq<char>)> {
    match doc {
        DocumentView::Object(records) => entries_of(records),
        _ => Seq::empty(),
    }
}

/// The manifest entry of one path-info record.
fn record_entry(record: &Option<JsonFields>) -> (res: Option<PackageEntry>)
    ensures
        match res {
            Some(e) => entry_of(entry_view(*record)) == Some(e@),
            None => entry_of(entry_view(*record)) is None,
        },
{
    let fields = match record {
        Some(fields) => fields,
        None => return None,
    };
    let name = match field(fields, "pname") {
        Some(text) => text,
        None => match field(fields, "name") {
            Some(text) => text,
            None => None,
        },
    };
    match name {
        None => None,
        Some(name) => {
            let version = match field(fields, "version") {
                Some(Some(v)) => v,
                _ => String::new(),
            };
            Some(PackageEntry { name, version })
        },
    }
}

/// The manifest of a `nix path-info --json` document.
pub fn manifest_entries(doc: &JsonDocument) -> (res: Vec<PackageEntry>)
    ensures
        entries_view(res@) == manifest_of(doc@),
{
    let mut res: Vec<PackageEntry> = Vec::new();
    if let JsonDocument::Object(records) = doc {
        let ghost all = doc@->Object_0;
        let mut i: usize = 0;
        while i < records.len()
            invariant
                i <= records.len(),
                all == doc@->Object_0,
                doc@ == DocumentView::Object(all),
                all.len() == records.len(),
                forall|k: int| 0 <= k < records.len() ==> #[trigger] all[k] == (records@[k].0@, entry_view(records@[k].1)),
                entries_view(res@) == entries_of(all.take(i as int)),
            decreases records.len() - i,
        {
            let ghost before = res@;
            assert(all.take(i + 1).drop_last() =~= all.take(i as int));
            if let Some(entry) = record_entry(&records[i].1) {
                res.push(entry);
                assert(entries_view(res@) =~= entries_view(before).push(entry@));
            }
            i = i + 1;
        }
        assert(all.take(records.len() as int) =~= all);
    }
    res
}

/// Why the manifest cannot be refreshed when `nix path-info` failed.
pub open spec fn query_failed_text(status: Seq<char>, stderr: Seq<char>) -> Seq<char> {
    "nix path-info exited "@ + status + ": "@ + stderr
}

/// The manifest that a run of `nix path-info --json --recursive` gives: from
/// its standard output when it succeeded; when it failed, an error naming its
/// exit status and standard error; when its output is not JSON, the parser's
/// error.
pub fn manifest_from_path_info(success: bool, status: &str, stderr: &str, stdout: &[u8]) -> (res: Result<Vec<PackageEntry>, String>)
    ensures
        !success ==> (res matches Err(e) && e@ == query_failed_text(status@, stderr@)),
        success ==> match json_document(stdout@) {
            Ok(doc) => (res matches Ok(entries) && entries_view(entries@) == manifest_of(doc)),
            Err(msg) => (res matches Err(e) && e@ == msg),
        },
{
    if !success {
        let mut msg = String::from_str("nix path-info exited ");
        msg.append(status);
        msg.append(": ");
        msg.append(stderr);
        return Err(msg);
    }
    match parse_json(stdout) {
        Ok(doc) => Ok(manifest_entries(&doc)),
        Err(e) => Err(e),
    }
}

} // verus!
