use omarchy_nix_daemon::pkg::{PkgAction, PkgEvent, PkgJob, PkgOp};
use omarchy_nix_daemon::protocol::Response;
use omarchy_nix_daemon::rebuild::{RebuildAction, RebuildEvent, RebuildExit};
use omarchy_nix_daemon::state::State;

fn state_of(names: &[&str]) -> State {
    State { packages: names.iter().map(|n| n.to_string()).collect() }
}

fn replies(action: PkgAction) -> Vec<Response> {
    match action {
        PkgAction::Reply(rs) => rs,
        _ => panic!("expected a reply"),
    }
}

fn reply(action: PkgAction) -> Response {
    let mut rs = replies(action);
    assert_eq!(rs.len(), 1);
    rs.pop().unwrap()
}

fn error_of(action: PkgAction) -> String {
    let r = reply(action);
    assert!(!r.ok);
    assert!(r.data.is_none());
    r.error.expect("a failure explains itself")
}

fn saved(action: PkgAction) -> Vec<String> {
    match action {
        PkgAction::SaveState(s) => s.packages,
        _ => panic!("expected a save"),
    }
}

fn run_rebuild(job: &mut PkgJob, first: PkgAction, success: bool, loaded: &[&str]) -> PkgAction {
    assert!(matches!(first, PkgAction::Rebuild(RebuildAction::WriteModule { .. })));
    job.advance(PkgEvent::Rebuild(RebuildEvent::ModuleWritten(Ok(()))));
    job.advance(PkgEvent::Rebuild(RebuildEvent::FlakeUriRead(Ok("flake".to_string()))));
    let exit = RebuildExit { success, status: "exit status: 1".to_string() };
    let next = job.advance(PkgEvent::Rebuild(RebuildEvent::RebuildRan(Ok(exit))));
    if success {
        assert!(matches!(next, PkgAction::Rebuild(RebuildAction::RefreshManifest)));
        job.advance(PkgEvent::Rebuild(RebuildEvent::ManifestRefreshed(Ok(()))))
    } else {
        match next {
            PkgAction::Rebuild(RebuildAction::RestoreState(s)) => assert_eq!(s.packages, state_of(loaded).packages),
            _ => panic!("a failed rebuild writes the loaded set back"),
        }
        job.advance(PkgEvent::Rebuild(RebuildEvent::StateRestored(Ok(()))))
    }
}

#[test]
fn add_resolves_saves_and_rebuilds() {
    let (mut job, action) = PkgJob::start(PkgOp::Add, "dua-cli");
    assert!(matches!(action, PkgAction::LoadState));
    assert_eq!(job.requests[0].attr, "dua");
    assert!(matches!(job.advance(PkgEvent::StateLoaded(Ok(state_of(&["bat"])))), PkgAction::BackupState));
    let to_save = saved(job.advance(PkgEvent::BackedUp(Err("no state.json yet".to_string()))));
    assert_eq!(to_save, vec!["bat".to_string(), "dua".to_string()]);
    let first = job.advance(PkgEvent::Saved(Ok(())));
    let done = reply(run_rebuild(&mut job, first, true, &["bat"]));
    assert!(done.ok);
    assert!(done.data.is_none());
    assert!(done.error.is_none());
}

#[test]
fn add_of_installed_package_is_refused() {
    let (mut job, _) = PkgJob::start(PkgOp::Add, "vi");
    let msg = error_of(job.advance(PkgEvent::StateLoaded(Ok(state_of(&["vim"])))));
    assert_eq!(msg, "'vi' is already installed");
}

#[test]
fn remove_of_absent_package_is_refused() {
    let (mut job, _) = PkgJob::start(PkgOp::Remove, "chromium");
    let msg = error_of(job.advance(PkgEvent::StateLoaded(Ok(state_of(&["bat"])))));
    assert_eq!(msg, "'chromium' is not installed");
}

#[test]
fn remove_saves_without_the_attribute() {
    let (mut job, _) = PkgJob::start(PkgOp::Remove, "nvim");
    assert!(matches!(job.advance(PkgEvent::StateLoaded(Ok(state_of(&["neovim", "bat", "neovim"])))), PkgAction::BackupState));
    let to_save = saved(job.advance(PkgEvent::BackedUp(Ok(()))));
    assert_eq!(to_save, vec!["bat".to_string()]);
}

#[test]
fn managed_and_arch_only_packages_are_refused() {
    let (_, action) = PkgJob::start(PkgOp::Add, "docker");
    assert_eq!(
        error_of(action),
        "'docker' is managed by NixOS option `virtualisation.docker.enable`; use omarchy-setup to toggle it"
    );
    let (_, action) = PkgJob::start(PkgOp::Remove, "yay");
    assert_eq!(error_of(action), "'yay' is not available on NixOS: AUR tooling does not exist on NixOS");
}

#[test]
fn load_and_save_failures_are_reported() {
    let (mut job, _) = PkgJob::start(PkgOp::Add, "bat");
    assert_eq!(error_of(job.advance(PkgEvent::StateLoaded(Err("bad json".to_string())))), "state load failed: bad json");

    let (mut job, _) = PkgJob::start(PkgOp::Add, "bat");
    job.advance(PkgEvent::StateLoaded(Ok(State::new())));
    job.advance(PkgEvent::BackedUp(Ok(())));
    assert_eq!(error_of(job.advance(PkgEvent::Saved(Err("read-only".to_string())))), "state save failed: read-only");
}

#[test]
fn failed_rebuild_is_reported_after_restore() {
    let (mut job, _) = PkgJob::start(PkgOp::Add, "bat");
    job.advance(PkgEvent::StateLoaded(Ok(State::new())));
    job.advance(PkgEvent::BackedUp(Ok(())));
    let first = job.advance(PkgEvent::Saved(Ok(())));
    let msg = error_of(run_rebuild(&mut job, first, false, &[]));
    assert_eq!(msg, "rebuild failed: nixos-rebuild switch failed (exit exit status: 1)");
}

#[test]
fn failed_rebuild_after_failed_backup_writes_back_first_state() {
    let (mut job, _) = PkgJob::start(PkgOp::Add, "lua51");
    job.advance(PkgEvent::StateLoaded(Ok(State::new())));
    let to_save = saved(job.advance(PkgEvent::BackedUp(Err("no state.json yet".to_string()))));
    assert_eq!(to_save, vec!["lua5_1".to_string()]);
    let first = job.advance(PkgEvent::Saved(Ok(())));
    let msg = error_of(run_rebuild(&mut job, first, false, &[]));
    assert_eq!(msg, "rebuild failed: nixos-rebuild switch failed (exit exit status: 1)");
}

#[test]
fn failed_remove_writes_back_the_removed_package() {
    let (mut job, _) = PkgJob::start(PkgOp::Remove, "bat");
    job.advance(PkgEvent::StateLoaded(Ok(state_of(&["bat", "git"]))));
    assert_eq!(saved(job.advance(PkgEvent::BackedUp(Ok(())))), vec!["git".to_string()]);
    let first = job.advance(PkgEvent::Saved(Ok(())));
    let msg = error_of(run_rebuild(&mut job, first, false, &["bat", "git"]));
    assert_eq!(msg, "rebuild failed: nixos-rebuild switch failed (exit exit status: 1)");
}

#[test]
fn missing_flake_uri_writes_back_loaded_set() {
    let (mut job, _) = PkgJob::start(PkgOp::Add, "git");
    job.advance(PkgEvent::StateLoaded(Ok(state_of(&["bat"]))));
    job.advance(PkgEvent::BackedUp(Ok(())));
    job.advance(PkgEvent::Saved(Ok(())));
    job.advance(PkgEvent::Rebuild(RebuildEvent::ModuleWritten(Ok(()))));
    match job.advance(PkgEvent::Rebuild(RebuildEvent::FlakeUriRead(Err("gone".to_string())))) {
        PkgAction::Rebuild(RebuildAction::RestoreState(s)) => assert_eq!(s.packages, vec!["bat".to_string()]),
        _ => panic!("a failed rebuild writes the loaded set back"),
    }
    let msg = error_of(job.advance(PkgEvent::Rebuild(RebuildEvent::StateRestored(Ok(())))));
    assert!(msg.starts_with("rebuild failed: /etc/omarchy/flake-uri not found (gone)"));
}

#[test]
fn job_awaits_only_its_next_event() {
    let (job, _) = PkgJob::start(PkgOp::Add, "bat");
    assert!(job.awaits(&PkgEvent::StateLoaded(Ok(State::new()))));
    assert!(!job.awaits(&PkgEvent::Saved(Ok(()))));
    let (refused, _) = PkgJob::start(PkgOp::Add, "sddm");
    assert!(!refused.awaits(&PkgEvent::StateLoaded(Ok(State::new()))));
}

#[test]
fn queued_adds_share_one_save_and_one_rebuild() {
    let (mut job, _) = PkgJob::start(PkgOp::Add, "chromium");
    let (other, _) = PkgJob::start(PkgOp::Add, "noto-fonts-emoji");
    assert!(job.is_queued() && other.is_queued());
    job.merge(other);
    assert_eq!(job.requests.len(), 2);
    assert!(matches!(job.advance(PkgEvent::StateLoaded(Ok(state_of(&["bat"])))), PkgAction::BackupState));
    let to_save = saved(job.advance(PkgEvent::BackedUp(Ok(()))));
    assert_eq!(to_save, vec!["bat".to_string(), "chromium".to_string(), "noto-fonts-color-emoji".to_string()]);
    let first = job.advance(PkgEvent::Saved(Ok(())));
    let answers = replies(run_rebuild(&mut job, first, true, &["bat"]));
    assert_eq!(answers.len(), 2);
    assert!(answers.iter().all(|r| r.ok));
}

#[test]
fn queued_requests_are_refused_one_by_one() {
    let (mut job, _) = PkgJob::start(PkgOp::Add, "git");
    let (again, _) = PkgJob::start(PkgOp::Add, "git");
    let (absent, _) = PkgJob::start(PkgOp::Remove, "vim");
    job.merge(again);
    job.merge(absent);
    assert!(matches!(job.advance(PkgEvent::StateLoaded(Ok(State::new()))), PkgAction::BackupState));
    assert_eq!(saved(job.advance(PkgEvent::BackedUp(Ok(())))), vec!["git".to_string()]);
    let first = job.advance(PkgEvent::Saved(Ok(())));
    let answers = replies(run_rebuild(&mut job, first, false, &[]));
    assert_eq!(answers.len(), 3);
    assert_eq!(answers[0].error.as_deref(), Some("rebuild failed: nixos-rebuild switch failed (exit exit status: 1)"));
    // Refused only because of the first request, whose rebuild failed: told of the failure.
    assert_eq!(answers[1].error.as_deref(), Some("rebuild failed: nixos-rebuild switch failed (exit exit status: 1)"));
    assert_eq!(answers[2].error.as_deref(), Some("'vim' is not installed"));
}

#[test]
fn batch_of_refusals_touches_nothing() {
    let (mut job, _) = PkgJob::start(PkgOp::Remove, "bat");
    let (other, _) = PkgJob::start(PkgOp::Remove, "git");
    job.merge(other);
    let answers = replies(job.advance(PkgEvent::StateLoaded(Ok(State::new()))));
    assert_eq!(answers.len(), 2);
    assert_eq!(answers[0].error.as_deref(), Some("'bat' is not installed"));
    assert_eq!(answers[1].error.as_deref(), Some("'git' is not installed"));
    assert!(!job.is_queued());
}

#[test]
fn load_failure_answers_every_queued_request() {
    let (mut job, _) = PkgJob::start(PkgOp::Add, "bat");
    let (other, _) = PkgJob::start(PkgOp::Add, "git");
    job.merge(other);
    let answers = replies(job.advance(PkgEvent::StateLoaded(Err("bad json".to_string()))));
    assert_eq!(answers.len(), 2);
    assert!(answers.iter().all(|r| r.error.as_deref() == Some("state load failed: bad json")));
}

#[test]
fn queued_duplicate_adds_both_see_the_failed_rebuild() {
    let (mut job, _) = PkgJob::start(PkgOp::Add, "bat");
    let (again, _) = PkgJob::start(PkgOp::Add, "bat");
    job.merge(again);
    job.advance(PkgEvent::StateLoaded(Ok(State::new())));
    assert_eq!(saved(job.advance(PkgEvent::BackedUp(Ok(())))), vec!["bat".to_string()]);
    let first = job.advance(PkgEvent::Saved(Ok(())));
    let answers = replies(run_rebuild(&mut job, first, false, &[]));
    assert_eq!(answers.len(), 2);
    for answer in &answers {
        assert_eq!(answer.error.as_deref(), Some("rebuild failed: nixos-rebuild switch failed (exit exit status: 1)"));
    }
}

#[test]
fn queued_duplicate_adds_after_success_refuse_the_second() {
    let (mut job, _) = PkgJob::start(PkgOp::Add, "bat");
    let (again, _) = PkgJob::start(PkgOp::Add, "bat");
    job.merge(again);
    job.advance(PkgEvent::StateLoaded(Ok(State::new())));
    job.advance(PkgEvent::BackedUp(Ok(())));
    let first = job.advance(PkgEvent::Saved(Ok(())));
    let answers = replies(run_rebuild(&mut job, first, true, &[]));
    assert!(answers[0].ok);
    assert_eq!(answers[1].error.as_deref(), Some("'bat' is already installed"));
}

#[test]
fn failed_save_keeps_only_refusals_of_the_loaded_set() {
    let (mut job, _) = PkgJob::start(PkgOp::Add, "git");
    let (again, _) = PkgJob::start(PkgOp::Add, "git");
    let (present, _) = PkgJob::start(PkgOp::Add, "bat");
    job.merge(again);
    job.merge(present);
    job.advance(PkgEvent::StateLoaded(Ok(state_of(&["bat"]))));
    job.advance(PkgEvent::BackedUp(Ok(())));
    let answers = replies(job.advance(PkgEvent::Saved(Err("read-only".to_string()))));
    assert_eq!(answers[0].error.as_deref(), Some("state save failed: read-only"));
    assert_eq!(answers[1].error.as_deref(), Some("state save failed: read-only"));
    assert_eq!(answers[2].error.as_deref(), Some("'bat' is already installed"));
}
