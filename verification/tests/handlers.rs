use omarchy_nix_daemon::handlers::{list, lists_name, parse_error, ping, present, status};
use omarchy_nix_daemon::json::JsonDocument;
use omarchy_nix_daemon::protocol::{Payload, Response};

fn present_answer(r: Response) -> bool {
    assert!(r.ok);
    match r.data {
        Some(Payload::Present(found)) => found,
        _ => panic!("expected a presence answer"),
    }
}

#[test]
fn ping_answers_pong() {
    let r = ping();
    assert!(r.ok);
    assert!(matches!(r.data, Some(Payload::Pong)));
    assert!(r.error.is_none());
}

#[test]
fn status_reports_version_and_manifest() {
    let r = status("0.1.0".to_string(), true);
    assert!(r.ok);
    match r.data {
        Some(Payload::Status { version, manifest_present }) => {
            assert_eq!(version, "0.1.0");
            assert!(manifest_present);
        }
        _ => panic!("expected a status"),
    }
}

#[test]
fn list_passes_the_manifest_on() {
    let bytes = br#"[{"name":"bat","version":"0.24"}]"#.to_vec();
    let r = list(Ok(bytes.clone()));
    assert!(r.ok);
    match r.data {
        Some(Payload::Manifest(b)) => assert_eq!(b, bytes),
        _ => panic!("expected the manifest"),
    }
}

#[test]
fn list_reports_unreadable_or_malformed_manifest() {
    let r = list(Err("No such file or directory (os error 2)".to_string()));
    assert!(!r.ok);
    assert_eq!(r.error.unwrap(), "manifest unavailable: No such file or directory (os error 2)");
    let r = list(Ok(b"[1, 2".to_vec()));
    assert!(!r.ok);
    assert!(r.data.is_none());
    assert!(r.error.unwrap().starts_with("manifest parse error: EOF while parsing a list"));
}

#[test]
fn present_looks_for_the_name() {
    let manifest = br#"[{"name":"bat","version":"0.24"},{"name":7},"jq",{"version":"1"},{"name":"ripgrep"}]"#.to_vec();
    assert!(present_answer(present(Some(manifest.clone()), "bat")));
    assert!(present_answer(present(Some(manifest.clone()), "ripgrep")));
    assert!(!present_answer(present(Some(manifest.clone()), "jq")));
    assert!(!present_answer(present(Some(manifest), "ba")));
}

#[test]
fn present_is_false_without_a_usable_manifest() {
    assert!(!present_answer(present(None, "bat")));
    assert!(!present_answer(present(Some(b"not json".to_vec()), "bat")));
    assert!(!present_answer(present(Some(br#"{"name":"bat"}"#.to_vec()), "bat")));
}

#[test]
fn parse_errors_are_reported() {
    let r = parse_error("unknown variant `pkg-foo`".to_string());
    assert!(!r.ok);
    assert_eq!(r.error.unwrap(), "parse error: unknown variant `pkg-foo`");
}

#[test]
fn lists_name_reads_array_entries_only() {
    let entry = |name: &str| Some(vec![("name".to_string(), Some(name.to_string()))]);
    let doc = JsonDocument::Array(vec![None, entry("bat"), entry("git")]);
    assert!(lists_name(&doc, "git"));
    assert!(!lists_name(&doc, "vim"));
    let object = JsonDocument::Object(vec![("bat".to_string(), entry("bat"))]);
    assert!(!lists_name(&object, "bat"));
    assert!(!lists_name(&JsonDocument::Other, "bat"));
}
