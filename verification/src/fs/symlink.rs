//! The three-way decision on a symbolic link: keep it, create it, or report
//! that the path is taken.

use vstd::prelude::*;
use crate::error::{ErrorKind, SyncError};

verus! {

/// What was found at a path.
#[derive(Clone, Debug, PartialEq, Eq)]
pub enum PathState {
    /// Nothing is there.
    Missing,
    /// A symbolic link; `resolved` is where it leads once every indirection
    /// has been followed, or `None` where it leads nowhere.
    Link { resolved: Option<String> },
    /// A regular file.
    File,
    /// A directory.
    Directory,
    /// Anything else.
    Other,
}

/// The mathematical value of a [`PathState`].
pub enum PathStateView {
    Missing,
    Link { resolved: Option<Seq<char>> },
    File,
    Directory,
    Other,
}

impl View for PathState {
    type V = PathStateView;

    open spec fn view(&self) -> PathStateView {
        match self {
            PathState::Missing => PathStateView::Missing,
            PathState::Link { resolved: Some(t) } => PathStateView::Link { resolved: Some(t@) },
            PathState::Link { resolved: None } => PathStateView::Link { resolved: None },
            PathState::File => PathStateView::File,
            PathState::Directory => PathStateView::Directory,
            PathState::Other => PathStateView::Other,
        }
    }
}

/// What to do about a link.
#[derive(Clone, Debug, PartialEq, Eq)]
pub enum LinkStep {
    /// The path already is a link that leads to the target: nothing to do.
    AlreadyLinked,
    /// The path is free: create a link at `link` that points to `original`.
    Create { original: String, link: String },
}

/// The mathematical value of a [`LinkStep`].
pub enum LinkStepView {
    AlreadyLinked,
    Create { original: Seq<char>, link: Seq<char> },
}

impl View for LinkStep {
    type V = LinkStepView;

    open spec fn view(&self) -> LinkStepView {
        match self {
            LinkStep::AlreadyLinked => LinkStepView::AlreadyLinked,
            LinkStep::Create { original, link } => LinkStepView::Create {
                original: original@,
                link: link@,
            },
        }
    }
}

/// The decision on a link at `link` that is to point to `original`, whose
/// resolved location is `target`, given what `current` says is at `link`:
/// `None` stands for a conflict.
pub open spec fn link_step(
    original: Seq<char>,
    link: Seq<char>,
    target: Seq<char>,
    current: PathStateView,
) -> Option<LinkStepView> {
    match current {
        PathStateView::Missing => Some(LinkStepView::Create { original, link }),
        PathStateView::Link { resolved: Some(t) } => if t == target {
            Some(LinkStepView::AlreadyLinked)
        } else {
            None
        },
        _ => None,
    }
}

/// Decides how to make `link` a symbolic link to `original`.
///
/// `target` is the resolved location of `original`, `current` what was found
/// at `link`. A link that already leads to `target` is kept; a free path gets
/// the link; anything else at the path is a `Conflict`, and nothing is to be
/// touched.
pub fn create_symlink(original: &str, link: &str, target: &str, current: &PathState) -> (step:
    Result<LinkStep, SyncError>)
    ensures
        match step {
            Ok(s) => link_step(original@, link@, target@, current@) == Some(s@),
            Err(e) => e.kind == ErrorKind::Conflict && e.context@ == link@ && link_step(
                original@,
                link@,
                target@,
                current@,
            ) is None,
        },
{
    match current {
        PathState::Missing => Ok(
            LinkStep::Create { original: String::from_str(original), link: String::from_str(link) },
        ),
        PathState::Link { resolved: Some(t) } => {
            if crate::text::same_text(t.as_str(), target) {
                Ok(LinkStep::AlreadyLinked)
            } else {
                Err(SyncError::new(ErrorKind::Conflict, link))
            }
        },
        _ => Err(SyncError::new(ErrorKind::Conflict, link)),
    }
}

} // verus!
