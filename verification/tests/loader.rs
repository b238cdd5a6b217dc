use configsync::error::ErrorKind;
use configsync::loader::{ConfigLoader, Document};
use configsync::schema::TeamConfig;
use configsync::state::LocalState;

#[test]
fn a_parsed_model_is_loaded_as_it_is() {
    let mut config = TeamConfig::default();
    config.team.name = "platform".to_string();
    assert_eq!(ConfigLoader::load(Document::Parsed(config.clone())).unwrap(), config);
}

#[test]
fn a_missing_model_is_not_initialized() {
    let failure = ConfigLoader::load(Document::Missing).unwrap_err();
    assert_eq!(failure.kind, ErrorKind::NotInitialized);
    assert_eq!(failure.context, "no model has been persisted");
}

#[test]
fn a_malformed_model_is_a_parse_failure() {
    let failure = ConfigLoader::load(Document::Malformed("expected `=` at line 3".to_string())).unwrap_err();
    assert_eq!(failure.kind, ErrorKind::ParseFailure);
    assert_eq!(failure.context, "expected `=` at line 3");
}

#[test]
fn a_machine_without_a_state_holds_no_role() {
    let state = LocalState::load(Document::Missing).unwrap();
    assert_eq!(state, LocalState::default());
    assert!(state.roles.is_empty());
}

#[test]
fn a_parsed_state_is_loaded_as_it_is() {
    let mut state = LocalState::default();
    state.add_role("work");
    assert_eq!(LocalState::load(Document::Parsed(state.clone())).unwrap(), state);
}

#[test]
fn a_malformed_state_is_a_parse_failure() {
    let failure = LocalState::load(Document::Malformed("roles must be a list".to_string())).unwrap_err();
    assert_eq!(failure.kind, ErrorKind::ParseFailure);
    assert_eq!(failure.context, "roles must be a list");
}
