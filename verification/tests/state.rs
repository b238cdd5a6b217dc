use configsync::state::LocalState;

#[test]
fn a_new_machine_holds_no_role() {
    let state = LocalState::default();
    assert!(state.roles.is_empty());
    assert!(!state.has_role("work"));
}

#[test]
fn a_role_is_assigned_once() {
    let mut state = LocalState::default();
    state.add_role("work");
    state.add_role("home");
    state.add_role("work");
    assert_eq!(state.roles, vec!["work".to_string(), "home".to_string()]);
    assert!(state.has_role("work"));
    assert!(state.has_role("home"));
    assert!(!state.has_role("wor"));
}
