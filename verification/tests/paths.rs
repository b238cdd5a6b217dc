use configsync::context::Environment;
use configsync::paths::{collapse_home, contains_component, expand_tilde, file_name, join};
use configsync::schema::{FileConfig, FileType, RoleScope};
use configsync::state::LocalState;
use configsync::secret::keys::get_key_path;
use configsync::text::trim;

fn environment() -> Environment {
    Environment {
        config_dir: "/home/u/.config/configsync".to_string(),
        data_dir: "/home/u/.local/share/configsync".to_string(),
        home: Some("/home/u".to_string()),
    }
}

fn entry(source: &str, destination: &str) -> FileConfig {
    FileConfig {
        source: source.to_string(),
        destination: destination.to_string(),
        file_type: FileType::File,
        platforms: vec!["*".to_string()],
        critical: false,
        protect: false,
        roles: RoleScope::Universal,
    }
}

#[test]
fn join_puts_one_separator_between() {
    assert_eq!(join("/a", "b"), "/a/b");
    assert_eq!(join("/a/", "b"), "/a/b");
    assert_eq!(join("/a", "b/c"), "/a/b/c");
}

#[test]
fn join_lets_an_absolute_path_stand_alone() {
    assert_eq!(join("/a", "/b"), "/b");
    assert_eq!(join("", "/b"), "/b");
}

#[test]
fn join_onto_nothing_is_the_relative_path() {
    assert_eq!(join("", "b"), "b");
    assert_eq!(join("/a", ""), "/a/");
    assert_eq!(join("", ""), "");
}

#[test]
fn file_name_is_the_text_behind_the_last_separator() {
    assert_eq!(file_name("/home/u/.vimrc"), Some(".vimrc".to_string()));
    assert_eq!(file_name("/home/u/.config/nvim"), Some("nvim".to_string()));
    assert_eq!(file_name("notes.txt"), Some("notes.txt".to_string()));
    assert_eq!(file_name("/ünï/cödé"), Some("cödé".to_string()));
}

#[test]
fn file_name_is_missing_for_roots_and_relative_names() {
    assert_eq!(file_name("/"), None);
    assert_eq!(file_name(""), None);
    assert_eq!(file_name("/home/u/"), None);
    assert_eq!(file_name("/home/u/.."), None);
    assert_eq!(file_name("/home/u/."), None);
    assert_eq!(file_name(".."), None);
    assert_eq!(file_name("/home/u/..."), Some("...".to_string()));
}

#[test]
fn tilde_expands_to_the_home_directory() {
    assert_eq!(expand_tilde("~/.vimrc", Some("/home/u")), "/home/u/.vimrc");
    assert_eq!(expand_tilde("~", Some("/home/u")), "/home/u");
    assert_eq!(expand_tilde("~/", Some("/home/u")), "/home/u/");
}

#[test]
fn tilde_stays_where_it_is_not_a_placeholder() {
    assert_eq!(expand_tilde("~other/.vimrc", Some("/home/u")), "~other/.vimrc");
    assert_eq!(expand_tilde("/etc/~/x", Some("/home/u")), "/etc/~/x");
    assert_eq!(expand_tilde("", Some("/home/u")), "");
    assert_eq!(expand_tilde("~\\x", Some("/home/u")), "~\\x");
}

#[test]
fn tilde_stays_without_a_home_directory() {
    assert_eq!(expand_tilde("~/.vimrc", None), "~/.vimrc");
    assert_eq!(expand_tilde("~", None), "~");
}

#[test]
fn home_collapses_to_the_placeholder() {
    assert_eq!(collapse_home("/home/u/.vimrc", Some("/home/u")), "~/.vimrc");
    assert_eq!(collapse_home("/home/u", Some("/home/u")), "~");
    assert_eq!(collapse_home("/home/u/a/b", Some("/home/u")), "~/a/b");
}

#[test]
fn paths_outside_home_do_not_collapse() {
    assert_eq!(collapse_home("/home/user2/.vimrc", Some("/home/u")), "/home/user2/.vimrc");
    assert_eq!(collapse_home("/etc/hosts", Some("/home/u")), "/etc/hosts");
    assert_eq!(collapse_home("/home/u/.vimrc", None), "/home/u/.vimrc");
    assert_eq!(collapse_home("/home/u/.vimrc", Some("")), "/home/u/.vimrc");
    assert_eq!(collapse_home("/ho", Some("/home/u")), "/ho");
}

#[test]
fn collapsing_then_expanding_gives_the_path_back() {
    let home = Some("/home/u");
    for path in ["/home/u/.vimrc", "/home/u", "/etc/hosts", "/home/user2/x", "/", "/home/u/~/x"] {
        let collapsed = collapse_home(path, home);
        assert_eq!(expand_tilde(&collapsed, home), path);
    }
}

#[test]
fn a_component_is_a_whole_name_between_separators() {
    assert!(contains_component("/repo/.git/index", ".git"));
    assert!(contains_component(".git", ".git"));
    assert!(contains_component("/repo/.git", ".git"));
    assert!(contains_component(".git/HEAD", ".git"));
    assert!(!contains_component("/repo/.gitignore", ".git"));
    assert!(!contains_component("/repo/x.git/file", ".git"));
    assert!(!contains_component("/repo/.github/workflows", ".git"));
    assert!(!contains_component("", ".git"));
    assert!(!contains_component("/repo/file", ".git"));
}

#[test]
fn trim_removes_white_space_at_both_ends_only() {
    assert_eq!(trim("  key \n"), "key");
    assert_eq!(trim("\t a b \r\n"), "a b");
    assert_eq!(trim("\u{00A0}\u{3000}x\u{2003}\u{85}"), "x");
    assert_eq!(trim("x"), "x");
    assert_eq!(trim(""), "");
    assert_eq!(trim(" \n\t "), "");
    assert_eq!(trim("\u{200B}x"), "\u{200B}x");
}

#[test]
fn trim_agrees_with_the_standard_library() {
    for text in ["  a  ", "\u{1680}b\u{2028}", "\u{202F}\u{205F}c\u{2029}", "\u{0B}\u{0C}d", "e\u{1F}"] {
        assert_eq!(trim(text), text.trim());
    }
}

#[test]
fn the_environment_names_the_fixed_locations() {
    let env = environment();
    assert_eq!(env.config_path(), "/home/u/.config/configsync/team-config.toml");
    assert_eq!(env.secrets_dir(), "/home/u/.config/configsync/secrets");
    assert_eq!(env.metadata_dir(), "/home/u/.config/configsync/.git");
    assert_eq!(get_key_path(&env), "/home/u/.local/share/configsync/key.txt");
    assert_eq!(LocalState::get_path(&env), "/home/u/.local/share/configsync/state.toml");
}

#[test]
fn an_entry_has_its_source_in_the_store_and_its_destination_at_home() {
    let env = environment();
    let vimrc = entry(".vimrc", "~/.vimrc");
    assert_eq!(env.source_path(&vimrc), "/home/u/.config/configsync/.vimrc");
    assert_eq!(env.destination_path(&vimrc), "/home/u/.vimrc");
    let hosts = entry("hosts", "/etc/hosts");
    assert_eq!(env.destination_path(&hosts), "/etc/hosts");
}
