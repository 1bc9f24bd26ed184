use omarchy_nix_daemon::rebuild::{
    flake_reference, generate_module, Rebuild, RebuildAction, RebuildEvent, RebuildExit,
};
use omarchy_nix_daemon::state::State;

fn state_of(names: &[&str]) -> State {
    State { packages: names.iter().map(|n| n.to_string()).collect() }
}

#[test]
fn module_lists_each_package() {
    let text = generate_module(&state_of(&["bat", "ripgrep"]));
    assert_eq!(
        text,
        "# Managed by omarchy-nix-daemon \u{2014} do not edit manually.\n{ pkgs, ... }:\n{\nenvironment.systemPackages = [\n    pkgs.bat\n    pkgs.ripgrep\n];\n}\n"
    );
}

#[test]
fn module_of_empty_state() {
    let text = generate_module(&State::new());
    assert_eq!(
        text,
        "# Managed by omarchy-nix-daemon \u{2014} do not edit manually.\n{ pkgs, ... }:\n{\nenvironment.systemPackages = [\n\n];\n}\n"
    );
}

#[test]
fn flake_reference_trims_the_uri() {
    assert_eq!(flake_reference("  github:omarchy/cinque\n"), "github:omarchy/cinque#omarchy-cinque");
    assert_eq!(flake_reference("path:/etc/omarchy\t\r\n"), "path:/etc/omarchy#omarchy-cinque");
    assert_eq!(flake_reference("\u{3000}x\u{a0}"), "x#omarchy-cinque");
    assert_eq!(flake_reference(" \n"), "#omarchy-cinque");
}

fn expect_finish(action: RebuildAction) -> Result<(), String> {
    match action {
        RebuildAction::Finish(r) => r,
        _ => panic!("the rebuild should be over"),
    }
}

fn expect_restore(action: RebuildAction) {
    match action {
        RebuildAction::RestoreState(s) => assert_eq!(s.packages, vec!["vim".to_string()]),
        _ => panic!("a failed rebuild writes the previous set back"),
    }
}

#[test]
fn successful_rebuild_refreshes_manifest() {
    let (mut rebuild, action) = Rebuild::start(&state_of(&["bat"]), State::new());
    match action {
        RebuildAction::WriteModule { content } => assert!(content.contains("    pkgs.bat\n")),
        _ => panic!("the module comes first"),
    }
    assert!(matches!(rebuild.advance(RebuildEvent::ModuleWritten(Ok(()))), RebuildAction::ReadFlakeUri));
    match rebuild.advance(RebuildEvent::FlakeUriRead(Ok("github:o/c\n".to_string()))) {
        RebuildAction::RunRebuild { flake } => assert_eq!(flake, "github:o/c#omarchy-cinque"),
        _ => panic!("the rebuild runs next"),
    }
    let exit = RebuildExit { success: true, status: "exit status: 0".to_string() };
    assert!(matches!(rebuild.advance(RebuildEvent::RebuildRan(Ok(exit))), RebuildAction::RefreshManifest));
    let done = rebuild.advance(RebuildEvent::ManifestRefreshed(Err("nix missing".to_string())));
    assert_eq!(expect_finish(done), Ok(()));
}

#[test]
fn failed_rebuild_restores_previous_state() {
    let (mut rebuild, _) = Rebuild::start(&state_of(&["git"]), state_of(&["vim"]));
    rebuild.advance(RebuildEvent::ModuleWritten(Ok(())));
    rebuild.advance(RebuildEvent::FlakeUriRead(Ok("f".to_string())));
    let exit = RebuildExit { success: false, status: "exit status: 1".to_string() };
    expect_restore(rebuild.advance(RebuildEvent::RebuildRan(Ok(exit))));
    let done = rebuild.advance(RebuildEvent::StateRestored(Ok(())));
    assert_eq!(expect_finish(done), Err("nixos-rebuild switch failed (exit exit status: 1)".to_string()));
}

#[test]
fn failed_restore_reports_its_error() {
    let (mut rebuild, _) = Rebuild::start(&state_of(&["git"]), state_of(&["vim"]));
    rebuild.advance(RebuildEvent::ModuleWritten(Ok(())));
    rebuild.advance(RebuildEvent::FlakeUriRead(Ok("f".to_string())));
    let exit = RebuildExit { success: false, status: "exit status: 1".to_string() };
    rebuild.advance(RebuildEvent::RebuildRan(Ok(exit)));
    let done = rebuild.advance(RebuildEvent::StateRestored(Err("disk full".to_string())));
    assert_eq!(expect_finish(done), Err("disk full".to_string()));
}

#[test]
fn missing_flake_uri_restores_then_ends_rebuild() {
    let (mut rebuild, _) = Rebuild::start(&state_of(&["git"]), state_of(&["vim"]));
    rebuild.advance(RebuildEvent::ModuleWritten(Ok(())));
    expect_restore(rebuild.advance(RebuildEvent::FlakeUriRead(Err("No such file or directory (os error 2)".to_string()))));
    let done = rebuild.advance(RebuildEvent::StateRestored(Ok(())));
    assert_eq!(
        expect_finish(done),
        Err("/etc/omarchy/flake-uri not found (No such file or directory (os error 2)); the system must be rebuilt from the latest omarchy flake so the activation script can write this file".to_string())
    );
}

#[test]
fn write_and_spawn_errors_restore_then_end_rebuild() {
    let (mut rebuild, _) = Rebuild::start(&state_of(&["git"]), state_of(&["vim"]));
    assert!(rebuild.awaits(&RebuildEvent::ModuleWritten(Ok(()))));
    assert!(!rebuild.awaits(&RebuildEvent::ManifestRefreshed(Ok(()))));
    expect_restore(rebuild.advance(RebuildEvent::ModuleWritten(Err("read-only".to_string()))));
    let done = rebuild.advance(RebuildEvent::StateRestored(Ok(())));
    assert_eq!(expect_finish(done), Err("read-only".to_string()));

    let (mut rebuild, _) = Rebuild::start(&state_of(&["git"]), state_of(&["vim"]));
    rebuild.advance(RebuildEvent::ModuleWritten(Ok(())));
    rebuild.advance(RebuildEvent::FlakeUriRead(Ok("f".to_string())));
    expect_restore(rebuild.advance(RebuildEvent::RebuildRan(Err("sudo not found".to_string()))));
    let done = rebuild.advance(RebuildEvent::StateRestored(Ok(())));
    assert_eq!(expect_finish(done), Err("sudo not found".to_string()));
}

#[test]
fn module_has_one_line_per_package_in_order() {
    let text = generate_module(&state_of(&["bat", "ripgrep", "bat"]));
    let lines: Vec<&str> = text.lines().collect();
    assert_eq!(lines.len(), 9);
    assert_eq!(&lines[4..7], &["    pkgs.bat", "    pkgs.ripgrep", "    pkgs.bat"]);
    assert_eq!(&lines[7..], &["];", "}"]);
    assert_eq!(generate_module(&State::new()).lines().count(), 7);
}

#[test]
fn different_package_sets_give_different_modules() {
    assert_ne!(generate_module(&State::new()), generate_module(&state_of(&[""])));
    assert_ne!(generate_module(&state_of(&["a", "b"])), generate_module(&state_of(&["b", "a"])));
    assert_ne!(generate_module(&state_of(&["a"])), generate_module(&state_of(&["a", "a"])));
}
