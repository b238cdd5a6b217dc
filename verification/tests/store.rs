use configsync::error::ErrorKind;
use configsync::git::repository::{
    CommitInfo, CommitRequest, Fetched, GitRepository, PullStep, StoreProbe,
};
use git2::{IndexEntry, IndexTime, Oid, Repository};
use tempfile::TempDir;

fn fresh(dir: &TempDir, name: &str) -> Repository {
    let mut options = git2::RepositoryInitOptions::new();
    options.initial_head("main");
    Repository::init_opts(dir.path().join(name), &options).expect("a store can be created")
}

fn info(commit: &git2::Commit<'_>) -> CommitInfo {
    CommitInfo {
        id: commit.id().to_string(),
        time: commit.time().seconds(),
        author: commit.author().name().ok().map(|name| name.to_string()),
        summary: commit.summary().ok().flatten().map(|summary| summary.to_string()),
    }
}

fn head_of(repo: &Repository) -> Option<Oid> {
    repo.head().ok().and_then(|reference| reference.target())
}

/// The snapshot of a store, read as the program reads it.
fn snapshot(repo: &Repository) -> GitRepository {
    let head = head_of(repo).map(|id| info(&repo.find_commit(id).unwrap()));
    let branch = match repo.head() {
        Ok(reference) if reference.is_branch() => reference.shorthand().ok().map(|n| n.to_string()),
        _ => None,
    };
    let found = StoreProbe::Present { head, branch, has_origin: repo.find_remote("origin").is_ok() };
    GitRepository::open(found, "main").expect("the store is there")
}

/// Stages `content` as the file `path`.
fn stage(repo: &Repository, path: &str, content: &[u8]) {
    let entry = IndexEntry {
        ctime: IndexTime::new(0, 0),
        mtime: IndexTime::new(0, 0),
        dev: 0,
        ino: 0,
        mode: 0o100644,
        uid: 0,
        gid: 0,
        file_size: 0,
        id: Oid::zero(),
        flags: 0,
        flags_extended: 0,
        path: path.as_bytes().to_vec(),
    };
    let mut index = repo.index().unwrap();
    index.add_frombuffer(&entry, content).unwrap();
    index.write().unwrap();
}

/// Writes the commit that `request` asks for, from what is staged.
fn carry_out(repo: &Repository, request: &CommitRequest) -> Oid {
    let mut index = repo.index().unwrap();
    let tree = repo.find_tree(index.write_tree().unwrap()).unwrap();
    let signature =
        git2::Signature::now(&request.signature.name, &request.signature.email).unwrap();
    let parents: Vec<git2::Commit<'_>> = request
        .parents
        .iter()
        .map(|id| repo.find_commit(Oid::from_str(id).unwrap()).unwrap())
        .collect();
    let parents: Vec<&git2::Commit<'_>> = parents.iter().collect();
    let id = repo
        .commit(Some(&request.update), &signature, &signature, &request.message, &tree, &parents)
        .unwrap();
    repo.checkout_head(Some(git2::build::CheckoutBuilder::default().force())).unwrap();
    id
}

/// Stages one file and commits everything with `message`, as the library asks.
fn commit(repo: &Repository, path: &str, content: &[u8], message: &str) -> Oid {
    stage(repo, path, content);
    carry_out(repo, &snapshot(repo).commit_all(message))
}

fn walk(repo: &Repository, limit: usize) -> Vec<CommitInfo> {
    let mut revwalk = repo.revwalk().unwrap();
    revwalk.push_head().unwrap();
    revwalk.set_sorting(git2::Sort::TOPOLOGICAL | git2::Sort::TIME).unwrap();
    revwalk.take(limit).map(|id| info(&repo.find_commit(id.unwrap()).unwrap())).collect()
}

fn summaries(repo: &Repository, limit: usize) -> Vec<String> {
    snapshot(repo).log(&walk(repo, limit), limit).into_iter().map(|line| line.summary).collect()
}

fn fetch(repo: &Repository) -> Fetched {
    let request = snapshot(repo).fetch().expect("origin is configured");
    let mut remote = repo.find_remote(&request.remote).unwrap();
    remote.fetch(&[request.branch.as_str()], None, None).unwrap();
    let fetch_head = repo.find_reference("FETCH_HEAD").unwrap();
    let fetched = repo.reference_to_annotated_commit(&fetch_head).unwrap();
    let (analysis, _) = repo.merge_analysis(&[&fetched]).unwrap();
    Fetched {
        tip: fetched.id().to_string(),
        up_to_date: analysis.is_up_to_date(),
        fast_forward: analysis.is_fast_forward(),
    }
}

fn forward(repo: &Repository, step: &PullStep) {
    if let PullStep::FastForward { reference, target, note } = step {
        repo.reference(reference, Oid::from_str(target).unwrap(), true, note).unwrap();
        repo.set_head(reference).unwrap();
        repo.checkout_head(Some(git2::build::CheckoutBuilder::default().force())).unwrap();
    }
}

/// A remote with one commit and a local store that follows it.
fn remote_and_local(dir: &TempDir) -> (Repository, Repository) {
    let remote = fresh(dir, "remote");
    commit(&remote, ".vimrc", b"set nocompatible\n", "Add vimrc");
    let local = fresh(dir, "local");
    local.remote("origin", remote.path().to_str().unwrap()).unwrap();
    let step = snapshot(&local).pull(&fetch(&local)).expect("a first pull can be taken");
    forward(&local, &step);
    (remote, local)
}

#[test]
fn a_fresh_store_has_no_head_and_no_remote() {
    let dir = TempDir::new().unwrap();
    let repo = fresh(&dir, "store");
    let seen = snapshot(&repo);
    assert_eq!(seen, GitRepository { head: None, branch: "main".to_string(), has_origin: false });
    assert_eq!(seen.push().unwrap_err().kind, ErrorKind::RepositoryFailure);
    assert_eq!(seen.revert_target(None).unwrap_err().kind, ErrorKind::RepositoryFailure);
}

#[test]
fn the_first_commit_becomes_the_head_of_the_configured_branch() {
    let dir = TempDir::new().unwrap();
    let repo = fresh(&dir, "store");
    let id = commit(&repo, ".vimrc", b"set nocompatible\n", "Add vimrc");
    let seen = snapshot(&repo);
    assert_eq!(seen.branch, "main");
    assert_eq!(seen.head.as_ref().map(|c| c.id.clone()), Some(id.to_string()));
    assert_eq!(seen.head.as_ref().and_then(|c| c.author.clone()), Some("configsync".to_string()));
    assert_eq!(repo.find_commit(id).unwrap().parent_count(), 0);
}

#[test]
fn after_a_commit_the_log_of_one_shows_it_on_top_of_the_prior_head() {
    let dir = TempDir::new().unwrap();
    let repo = fresh(&dir, "store");
    let first = commit(&repo, ".vimrc", b"set nocompatible\n", "Add vimrc");
    assert_eq!(summaries(&repo, 1), vec!["Add vimrc"]);

    let second = commit(&repo, ".zshrc", b"export EDITOR=vim\n", "Add zshrc");
    assert_eq!(summaries(&repo, 1), vec!["Add zshrc"]);
    let written = repo.find_commit(second).unwrap();
    assert_eq!(written.message().unwrap(), "Add zshrc");
    assert_eq!(written.parent_ids().collect::<Vec<Oid>>(), vec![first]);
    assert_eq!(head_of(&repo), Some(second));
    assert_eq!(summaries(&repo, 10), vec!["Add zshrc", "Add vimrc"]);
}

#[test]
fn a_commit_without_changes_keeps_the_history_sound() {
    let dir = TempDir::new().unwrap();
    let repo = fresh(&dir, "store");
    let first = commit(&repo, ".vimrc", b"x", "Add vimrc");
    let again = carry_out(&repo, &snapshot(&repo).commit_all("Nothing new"));
    let written = repo.find_commit(again).unwrap();
    assert_eq!(written.parent_ids().collect::<Vec<Oid>>(), vec![first]);
    assert_eq!(written.tree_id(), repo.find_commit(first).unwrap().tree_id());
    assert_eq!(summaries(&repo, 10), vec!["Nothing new", "Add vimrc"]);
}

#[test]
fn the_log_shows_short_identifiers_of_the_real_commits() {
    let dir = TempDir::new().unwrap();
    let repo = fresh(&dir, "store");
    let id = commit(&repo, ".vimrc", b"x", "Add vimrc");
    let lines = snapshot(&repo).log(&walk(&repo, 10), 10);
    assert_eq!(lines.len(), 1);
    assert_eq!(lines[0].short_id, id.to_string()[..7].to_string());
    assert_eq!(lines[0].author, "configsync");
    assert_eq!(lines[0].timestamp.len(), "2015-05-15 00:00:00".len());
}

#[test]
fn a_pull_takes_newer_history_without_intervention() {
    let dir = TempDir::new().unwrap();
    let (remote, local) = remote_and_local(&dir);
    assert_eq!(head_of(&local), head_of(&remote));

    let tip = commit(&remote, ".zshrc", b"export EDITOR=vim\n", "Add zshrc");
    let fetched = fetch(&local);
    assert!(fetched.fast_forward);
    assert!(!fetched.up_to_date);
    let step = snapshot(&local).pull(&fetched).expect("newer history can be taken");
    match &step {
        PullStep::FastForward { reference, target, .. } => {
            assert_eq!(reference, "refs/heads/main");
            assert_eq!(target, &tip.to_string());
        }
        PullStep::UpToDate => panic!("the remote is ahead"),
    }
    forward(&local, &step);
    assert_eq!(head_of(&local), Some(tip));
    assert_eq!(summaries(&local, 10), vec!["Add zshrc", "Add vimrc"]);
}

#[test]
fn a_pull_of_known_history_changes_nothing() {
    let dir = TempDir::new().unwrap();
    let (_remote, local) = remote_and_local(&dir);
    let before = head_of(&local);
    let fetched = fetch(&local);
    assert!(fetched.up_to_date);
    let step = snapshot(&local).pull(&fetched).unwrap();
    assert_eq!(step, PullStep::UpToDate);
    forward(&local, &step);
    assert_eq!(head_of(&local), before);
}

#[test]
fn a_pull_of_diverged_history_fails_and_leaves_local_history_alone() {
    let dir = TempDir::new().unwrap();
    let (remote, local) = remote_and_local(&dir);
    commit(&remote, ".zshrc", b"theirs\n", "Add zshrc there");
    let mine = commit(&local, ".bashrc", b"mine\n", "Add bashrc here");

    let fetched = fetch(&local);
    assert!(!fetched.fast_forward);
    assert!(!fetched.up_to_date);
    let failure = snapshot(&local).pull(&fetched).unwrap_err();
    assert_eq!(failure.kind, ErrorKind::RepositoryFailure);
    assert_eq!(head_of(&local), Some(mine));
    assert_eq!(summaries(&local, 10), vec!["Add bashrc here", "Add vimrc"]);
}

#[test]
fn a_local_store_that_is_ahead_is_up_to_date() {
    let dir = TempDir::new().unwrap();
    let (_remote, local) = remote_and_local(&dir);
    let mine = commit(&local, ".bashrc", b"mine\n", "Add bashrc here");
    let fetched = fetch(&local);
    assert_eq!(snapshot(&local).pull(&fetched).unwrap(), PullStep::UpToDate);
    assert_eq!(head_of(&local), Some(mine));
}

#[test]
fn a_revert_appends_a_commit_that_undoes_the_head() {
    let dir = TempDir::new().unwrap();
    let repo = fresh(&dir, "store");
    let first = commit(&repo, ".vimrc", b"one\n", "Add vimrc");
    let second = commit(&repo, ".vimrc", b"two\n", "Change vimrc");

    let seen = snapshot(&repo);
    let target = seen.revert_target(None).unwrap();
    assert_eq!(target, second.to_string());
    let aimed_at = repo.find_commit(Oid::from_str(&target).unwrap()).unwrap();
    repo.revert(&aimed_at, None).unwrap();
    let clean = !repo.index().unwrap().has_conflicts();
    assert!(clean);
    repo.cleanup_state().unwrap();
    let request = seen.revert(&target, Some(&info(&aimed_at)), clean).unwrap();
    assert_eq!(request.message, "Revert \"Change vimrc\"");
    let third = carry_out(&repo, &request);

    let reverting = repo.find_commit(third).unwrap();
    assert_eq!(reverting.parent_ids().collect::<Vec<Oid>>(), vec![second]);
    assert_eq!(reverting.tree_id(), repo.find_commit(first).unwrap().tree_id());
    let kept = repo.find_commit(second).unwrap();
    assert_eq!(kept.message().unwrap(), "Change vimrc");
    assert_eq!(kept.parent_ids().collect::<Vec<Oid>>(), vec![first]);
    assert_eq!(
        summaries(&repo, 10),
        vec!["Revert \"Change vimrc\"", "Change vimrc", "Add vimrc"]
    );
}

#[test]
fn a_revert_of_an_older_commit_undoes_that_commit_only() {
    let dir = TempDir::new().unwrap();
    let repo = fresh(&dir, "store");
    commit(&repo, ".vimrc", b"one\n", "Add vimrc");
    let second = commit(&repo, ".zshrc", b"zsh\n", "Add zshrc");
    let third = commit(&repo, ".bashrc", b"bash\n", "Add bashrc");

    let seen = snapshot(&repo);
    let target = seen.revert_target(Some(&second.to_string()[..12])).unwrap();
    assert_eq!(&target[..12], &second.to_string()[..12]);
    let aimed_at = repo.find_commit(second).unwrap();
    repo.revert(&aimed_at, None).unwrap();
    let clean = !repo.index().unwrap().has_conflicts();
    repo.cleanup_state().unwrap();
    let fourth =
        carry_out(&repo, &seen.revert(&target, Some(&info(&aimed_at)), clean).unwrap());

    let tree = repo.find_commit(fourth).unwrap().tree().unwrap();
    assert!(tree.get_name(".vimrc").is_some());
    assert!(tree.get_name(".bashrc").is_some());
    assert!(tree.get_name(".zshrc").is_none());
    assert_eq!(repo.find_commit(fourth).unwrap().parent_ids().collect::<Vec<Oid>>(), vec![third]);
    assert_eq!(
        summaries(&repo, 10),
        vec!["Revert \"Add zshrc\"", "Add bashrc", "Add zshrc", "Add vimrc"]
    );
}

#[test]
fn a_revert_of_an_unknown_commit_is_refused() {
    let dir = TempDir::new().unwrap();
    let repo = fresh(&dir, "store");
    let first = commit(&repo, ".vimrc", b"one\n", "Add vimrc");
    let seen = snapshot(&repo);
    let target = seen.revert_target(Some("deadbeef")).unwrap();
    assert_eq!(target, "deadbeef00000000000000000000000000000000");
    assert!(repo.find_commit(Oid::from_str(&target).unwrap()).is_err());
    let failure = seen.revert(&target, None, false).unwrap_err();
    assert_eq!(failure.kind, ErrorKind::RepositoryFailure);
    assert_eq!(failure.context, target);
    assert_eq!(head_of(&repo), Some(first));
}
