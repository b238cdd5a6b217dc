use configsync::context::Environment;
use configsync::engine::apply::{ApplyReport, Outcome, Problem};
use configsync::engine::pull::{conclude, pull};
use configsync::engine::push::{after_commit, after_push, publish, push, AfterCommit};
use configsync::error::{Disposition, ErrorKind, SyncError};
use configsync::git::repository::{CommitInfo, Fetched, GitRepository, PullStep, StoreProbe};
use configsync::schema::{FileConfig, FileType, RoleScope, TeamConfig};
use configsync::watch::{
    debounce_seconds, has_relevant_changes, is_internal, on_event, start, sync_changes, Reaction, WatchEvent,
};

const HEAD: &str = "3f786850e387550fdab836ed7e6dc881de23001b";
const TIP: &str = "89e6c98d92887913cadf06b2adb97f26cde4849b";

fn head() -> CommitInfo {
    CommitInfo { id: HEAD.to_string(), time: 0, author: None, summary: Some("Add vimrc".to_string()) }
}

fn store(has_origin: bool) -> GitRepository {
    GitRepository { head: Some(head()), branch: "main".to_string(), has_origin }
}

fn paths(list: &[&str]) -> Vec<String> {
    list.iter().map(|p| p.to_string()).collect()
}

fn warnings(end: &Disposition) -> Vec<(ErrorKind, String)> {
    match end {
        Disposition::Success { warnings } => warnings.iter().map(|w| (w.kind, w.context.clone())).collect(),
        Disposition::Failure(e) => panic!("failed: {:?}", e),
    }
}

#[test]
fn publishing_commits_everything_and_pushes() {
    let plan = push(&store(true));
    assert_eq!(plan.commit.message, "Update configurations (configsync)");
    assert_eq!(plan.commit.parents, vec![HEAD.to_string()]);
    let transmit = plan.transmit.unwrap();
    assert_eq!(transmit.remote, "origin");
    assert_eq!(transmit.refspec, "refs/heads/main:refs/heads/main");
}

#[test]
fn publishing_without_a_remote_still_commits() {
    let plan = push(&store(false));
    assert_eq!(plan.commit.message, "Update configurations (configsync)");
    assert_eq!(plan.transmit.unwrap_err().kind, ErrorKind::RepositoryFailure);
    let plan = publish(&store(false), "by hand");
    assert_eq!(plan.commit.message, "by hand");
}

#[test]
fn a_failed_push_is_a_warning() {
    let rejected = SyncError::new(ErrorKind::RepositoryFailure, "remote has diverged");
    let end = after_push(Some(rejected));
    assert!(!end.is_failure());
    assert_eq!(warnings(&end), vec![(ErrorKind::RepositoryFailure, "remote has diverged".to_string())]);
    assert!(warnings(&after_push(None)).is_empty());
}

#[test]
fn a_commit_that_stands_is_pushed() {
    match after_commit(push(&store(true)), None) {
        AfterCommit::Push(request) => {
            assert_eq!(request.remote, "origin");
            assert_eq!(request.refspec, "refs/heads/main:refs/heads/main");
        }
        AfterCommit::Done(end) => panic!("nothing was sent: {:?}", end),
    }
}

#[test]
fn a_commit_without_a_remote_ends_with_a_warning() {
    match after_commit(push(&store(false)), None) {
        AfterCommit::Done(end) => {
            assert!(!end.is_failure());
            assert_eq!(warnings(&end), vec![(ErrorKind::RepositoryFailure, "origin".to_string())]);
        }
        AfterCommit::Push(request) => panic!("there is no remote to send {:?} to", request),
    }
}

#[test]
fn a_failed_commit_is_a_failure_and_nothing_is_sent() {
    let locked = SyncError::new(ErrorKind::RepositoryFailure, "index locked");
    for has_origin in [true, false] {
        match after_commit(push(&store(has_origin)), Some(locked.clone())) {
            AfterCommit::Done(Disposition::Failure(e)) => {
                assert_eq!(e.kind, ErrorKind::RepositoryFailure);
                assert_eq!(e.context, "index locked");
            }
            other => panic!("a failed commit cannot go on: {:?}", other),
        }
    }
}

#[test]
fn a_pull_ends_as_the_fetch_allows() {
    let repo = store(true);
    let newer = Fetched { tip: TIP.to_string(), up_to_date: false, fast_forward: true };
    match pull(&repo, Ok(newer)).unwrap() {
        PullStep::FastForward { reference, target, .. } => {
            assert_eq!(reference, "refs/heads/main");
            assert_eq!(target, TIP);
        }
        PullStep::UpToDate => panic!("newer history must be taken"),
    }
    let same = Fetched { tip: HEAD.to_string(), up_to_date: true, fast_forward: false };
    assert_eq!(pull(&repo, Ok(same)).unwrap(), PullStep::UpToDate);
    let diverged = Fetched { tip: TIP.to_string(), up_to_date: false, fast_forward: false };
    assert_eq!(pull(&repo, Ok(diverged)).unwrap_err().kind, ErrorKind::RepositoryFailure);
}

#[test]
fn a_failed_fetch_fails_the_pull_with_its_own_failure() {
    let offline = SyncError::new(ErrorKind::IoFailure, "network unreachable");
    let failure = pull(&store(true), Err(offline)).unwrap_err();
    assert_eq!(failure.kind, ErrorKind::IoFailure);
    assert_eq!(failure.context, "network unreachable");
}

#[test]
fn a_refresh_carries_the_problems_of_the_run_as_warnings() {
    let mut config = TeamConfig::default();
    for name in ["a", "b"] {
        config.files.push(FileConfig {
            source: name.to_string(),
            destination: format!("~/{}", name),
            file_type: FileType::File,
            platforms: vec![],
            critical: false,
            protect: false,
            roles: RoleScope::Universal,
        });
    }
    let report = ApplyReport { outcomes: vec![Outcome::Linked, Outcome::Failed(Problem::Conflict)] };
    let end = conclude(None, &report, &config);
    assert_eq!(warnings(&end), vec![(ErrorKind::Conflict, "~/b".to_string())]);

    let failed = conclude(Some(SyncError::new(ErrorKind::RepositoryFailure, "diverged")), &report, &config);
    assert!(failed.is_failure());
}

#[test]
fn the_debounce_window_is_two_seconds() {
    assert_eq!(debounce_seconds(), 2);
}

#[test]
fn paths_inside_the_metadata_are_internal() {
    assert!(is_internal("/home/u/.config/configsync/.git/index.lock"));
    assert!(is_internal("/home/u/.config/configsync/.git"));
    assert!(!is_internal("/home/u/.config/configsync/.gitignore"));
    assert!(!is_internal("/home/u/.config/configsync/.vimrc"));
}

#[test]
fn a_batch_is_relevant_where_one_path_lies_outside_the_metadata() {
    assert!(has_relevant_changes(&paths(&["/repo/.git/index", "/repo/.vimrc"])));
    assert!(has_relevant_changes(&paths(&["/repo/.vimrc"])));
    assert!(!has_relevant_changes(&paths(&["/repo/.git/index", "/repo/.git/HEAD"])));
    assert!(!has_relevant_changes(&paths(&[])));
}

#[test]
fn the_daemon_reacts_to_each_event_and_keeps_watching() {
    assert_eq!(on_event(&WatchEvent::Changed(paths(&["/repo/.vimrc"]))), Reaction::Sync);
    assert_eq!(on_event(&WatchEvent::Changed(paths(&["/repo/.git/HEAD"]))), Reaction::Ignore);
    assert_eq!(on_event(&WatchEvent::Changed(paths(&[]))), Reaction::Ignore);
    assert_eq!(
        on_event(&WatchEvent::Failed("too many watches".to_string())),
        Reaction::Report("too many watches".to_string())
    );
}

#[test]
fn a_cycle_commits_and_pushes() {
    let plan = sync_changes(&store(true));
    assert_eq!(plan.commit.message, "Auto-sync: Detected changes");
    assert_eq!(plan.commit.parents, vec![HEAD.to_string()]);
    assert_eq!(plan.transmit.unwrap().refspec, "refs/heads/main:refs/heads/main");
}

#[test]
fn the_daemon_needs_an_initialised_store() {
    let env = Environment {
        config_dir: "/home/u/.config/configsync".to_string(),
        data_dir: "/home/u/.local/share/configsync".to_string(),
        home: Some("/home/u".to_string()),
    };
    let found = || StoreProbe::Present { head: Some(head()), branch: None, has_origin: true };
    let watch = start(&env, true, found(), "main").unwrap();
    assert_eq!(watch.debounce, 2);
    assert_eq!(watch.repo, store(true));
    for failure in [
        start(&env, false, found(), "main").unwrap_err(),
        start(&env, false, StoreProbe::Corrupt("bad".to_string()), "main").unwrap_err(),
        start(&env, true, StoreProbe::Absent, "main").unwrap_err(),
    ] {
        assert_eq!(failure.kind, ErrorKind::NotInitialized);
        assert_eq!(failure.context, "/home/u/.config/configsync");
    }
    let corrupt = start(&env, true, StoreProbe::Corrupt("bad".to_string()), "main").unwrap_err();
    assert_eq!(corrupt.kind, ErrorKind::RepositoryFailure);
    assert_eq!(corrupt.context, "bad");
}
