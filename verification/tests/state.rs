use omarchy_nix_daemon::state::State;

fn names(state: &State) -> Vec<&str> {
    state.packages.iter().map(|p| p.as_str()).collect()
}

#[test]
fn new_state_is_empty() {
    assert!(State::new().packages.is_empty());
}

#[test]
fn contains_finds_exact_names() {
    let state = State { packages: vec!["bat".to_string(), "ripgrep".to_string()] };
    assert!(state.contains("bat"));
    assert!(state.contains("ripgrep"));
    assert!(!state.contains("ba"));
    assert!(!state.contains("rip"));
    assert!(!state.contains(""));
}

#[test]
fn add_appends() {
    let mut state = State { packages: vec!["bat".to_string()] };
    state.add("vim");
    assert_eq!(names(&state), vec!["bat", "vim"]);
}

#[test]
fn remove_takes_out_every_copy() {
    let mut state = State {
        packages: vec!["vim".to_string(), "bat".to_string(), "vim".to_string(), "jq".to_string()],
    };
    state.remove("vim");
    assert_eq!(names(&state), vec!["bat", "jq"]);
    state.remove("absent");
    assert_eq!(names(&state), vec!["bat", "jq"]);
}

#[test]
fn remove_after_add_restores_packages() {
    let before = vec!["bat".to_string(), "jq".to_string()];
    let mut state = State { packages: before.clone() };
    state.add("vim");
    state.remove("vim");
    assert_eq!(state.packages, before);
}

#[test]
fn duplicate_copies_packages() {
    let state = State { packages: vec!["a".to_string(), "b".to_string()] };
    let copy = state.duplicate();
    assert_eq!(copy.packages, state.packages);
}
