use omarchy_nix_daemon::json::{field, JsonDocument};
use omarchy_nix_daemon::manifest::{manifest_entries, manifest_from_path_info, PackageEntry};

fn pairs(entries: &[PackageEntry]) -> Vec<(&str, &str)> {
    entries.iter().map(|e| (e.name.as_str(), e.version.as_str())).collect()
}

#[test]
fn path_info_gives_names_and_versions() {
    let stdout = br#"{
        "/nix/store/b-bat-0.24": {"pname": "bat", "name": "bat-0.24", "version": "0.24"},
        "/nix/store/a-glibc": {"name": "glibc-2.39"},
        "/nix/store/c-odd": {"pname": 3, "name": "odd"},
        "/nix/store/d-nameless": {"version": "1"},
        "/nix/store/e-array": [1, 2],
        "/nix/store/f-ver": {"name": "x", "version": 2}
    }"#;
    let entries = manifest_from_path_info(true, "", "", stdout).unwrap();
    assert_eq!(pairs(&entries), vec![("glibc-2.39", ""), ("bat", "0.24"), ("x", "")]);
}

#[test]
fn path_info_that_is_not_an_object_gives_nothing() {
    assert!(manifest_from_path_info(true, "", "", b"[]").unwrap().is_empty());
    assert!(manifest_from_path_info(true, "", "", b"null").unwrap().is_empty());
}

#[test]
fn failed_query_is_reported() {
    let err = manifest_from_path_info(false, "exit status: 1", "error: no nix", b"{}").unwrap_err();
    assert_eq!(err, "nix path-info exited exit status: 1: error: no nix");
    let err = manifest_from_path_info(true, "", "", b"{").unwrap_err();
    assert!(err.starts_with("EOF while parsing an object"));
}

#[test]
fn manifest_of_other_documents_is_empty() {
    assert!(manifest_entries(&JsonDocument::Other).is_empty());
}

#[test]
fn fields_are_found_by_key() {
    let fields = vec![
        ("name".to_string(), Some("bat".to_string())),
        ("n".to_string(), None),
        ("name".to_string(), Some("shadowed".to_string())),
    ];
    assert_eq!(field(&fields, "name"), Some(Some("bat".to_string())));
    assert_eq!(field(&fields, "n"), Some(None));
    assert_eq!(field(&fields, "missing"), None);
    assert_eq!(field(&Vec::new(), "name"), None);
}

#[test]
fn manifest_ignores_non_object_records() {
    let doc = JsonDocument::Object(vec![
        ("a".to_string(), None),
        ("b".to_string(), Some(vec![("pname".to_string(), Some("vim".to_string()))])),
    ]);
    let entries = manifest_entries(&doc);
    assert_eq!(pairs(&entries), vec![("vim", "")]);
}
