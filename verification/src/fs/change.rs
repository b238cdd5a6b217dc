//! The changes an operation asks the caller to make to the filesystem.

use vstd::prelude::*;

verus! {

/// The permission bits of a file that only its owner may read and write.
pub const OWNER_ONLY: u32 = 0o600;

/// The permission bits of a mode.
pub open spec fn permission_bits(mode: u32) -> u32 {
    mode & 0o777
}

/// Whether a file with the mode `mode` can be read and written by its owner
/// and by nobody else. `None` stands for a mode that is not known.
pub open spec fn owner_only(mode: Option<u32>) -> bool {
    mode matches Some(m) && permission_bits(m) == OWNER_ONLY
}

/// Tells whether a file with the mode `mode` is its owner's alone.
pub fn is_owner_only(mode: Option<u32>) -> (private: bool)
    ensures
        private == owner_only(mode),
{
    match mode {
        Some(m) => m & 0o777 == OWNER_ONLY,
        None => false,
    }
}

/// A file written with the owner-only permission bits is its owner's alone.
pub proof fn lemma_owner_only()
    ensures
        owner_only(Some(OWNER_ONLY)),
{
    assert(0o600u32 & 0o777u32 == 0o600u32) by (bit_vector);
}

/// The change the caller is to make to the filesystem.
#[derive(Clone, Debug, PartialEq, Eq)]
pub enum Action {
    /// No change.
    Nothing,
    /// Create a symbolic link at `link` that points to `original`, creating the
    /// directories above `link` as needed.
    Link { original: String, link: String },
    /// Write `content` to the regular file at `path` and give the file the
    /// permission bits `mode`.
    Write { path: String, content: Vec<u8>, mode: u32 },
}

/// The mathematical value of an [`Action`].
pub enum ActionView {
    Nothing,
    Link { original: Seq<char>, link: Seq<char> },
    Write { path: Seq<char>, content: Seq<u8>, mode: u32 },
}

impl View for Action {
    type V = ActionView;

    open spec fn view(&self) -> ActionView {
        match self {
            Action::Nothing => ActionView::Nothing,
            Action::Link { original, link } => ActionView::Link { original: original@, link: link@ },
            Action::Write { path, content, mode } => ActionView::Write {
                path: path@,
                content: content@,
                mode: *mode,
            },
        }
    }
}

} // verus!
