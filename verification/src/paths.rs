//! Paths as text: joining, the final component, home-directory expansion and
//! the test for components such as the store's metadata directory.
//!
//! Paths use `/` as their separator. A *component* of a path is a maximal run
//! of characters between separators.

use vstd::prelude::*;
use crate::text::same_text;

verus! {

/// `rel` placed under `base`: an absolute `rel` stands alone, otherwise the two
/// are joined by exactly one separator.
pub open spec fn join_spec(base: Seq<char>, rel: Seq<char>) -> Seq<char> {
    if rel.len() > 0 && rel[0] == '/' {
        rel
    } else if base.len() == 0 || base.last() == '/' {
        base + rel
    } else {
        base + seq!['/'] + rel
    }
}

/// Joins `rel` onto `base`.
pub fn join(base: &str, rel: &str) -> (joined: String)
    ensures
        joined@ == join_spec(base@, rel@),
{
    let base_len = base.unicode_len();
    if rel.unicode_len() > 0 && rel.get_char(0) == '/' {
        String::from_str(rel)
    } else if base_len == 0 || base.get_char(base_len - 1) == '/' {
        String::from_str(base).concat(rel)
    } else {
        proof {
            reveal_strlit("/");
        }
        String::from_str(base).concat("/").concat(rel)
    }
}

/// The position of the last separator in `path`, or -1 where it has none.
pub open spec fn last_separator(path: Seq<char>) -> int
    decreases path.len(),
{
    if path.len() == 0 {
        -1
    } else if path.last() == '/' {
        path.len() - 1
    } else {
        last_separator(path.drop_last())
    }
}

/// The final component of `path`: the text behind its last separator, unless
/// that text is empty or one of the relative names `.` and `..`.
pub open spec fn file_name_spec(path: Seq<char>) -> Option<Seq<char>> {
    let name = path.skip(last_separator(path) + 1);
    if name.len() == 0 || name == seq!['.'] || name == seq!['.', '.'] {
        None
    } else {
        Some(name)
    }
}

/// The final component of a path, as [`file_name_spec`] defines it.
pub fn file_name(path: &str) -> (name: Option<String>)
    ensures
        match name {
            Some(n) => file_name_spec(path@) == Some(n@),
            None => file_name_spec(path@) is None,
        },
{
    let len = path.unicode_len();
    let mut start: usize = len;
    assert(path@.subrange(0, len as int) =~= path@);
    while start > 0 && path.get_char(start - 1) != '/'
        invariant
            start <= len,
            len == path@.len(),
            last_separator(path@) == last_separator(path@.subrange(0, start as int)),
        decreases start,
    {
        proof {
            let prefix = path@.subrange(0, start as int);
            assert(prefix.drop_last() =~= path@.subrange(0, start - 1));
        }
        start -= 1;
    }
    proof {
        reveal_strlit(".");
        reveal_strlit("..");
        assert("."@ =~= seq!['.']);
        assert(".."@ =~= seq!['.', '.']);
    }
    let name = path.substring_char(start, len);
    if name.unicode_len() == 0 || same_text(name, ".") || same_text(name, "..") {
        None
    } else {
        Some(String::from_str(name))
    }
}

/// `input` with a leading `~` replaced by `home`, where the `~` stands alone or
/// directly before a separator and a home directory is known; otherwise `input`.
pub open spec fn expand_tilde_spec(input: Seq<char>, home: Option<Seq<char>>) -> Seq<char> {
    if input.len() > 0 && input[0] == '~' && (input.len() == 1 || input[1] == '/') && home is Some {
        home->0 + input.skip(1)
    } else {
        input
    }
}

/// The view of an optional string slice.
pub open spec fn opt_text(s: Option<&str>) -> Option<Seq<char>> {
    match s {
        Some(t) => Some(t@),
        None => None,
    }
}

/// Calls `shellexpand::tilde_with_context` with `home` as the home directory.
///
/// Trusted: the result is `input` with its leading `~` replaced by `home` when
/// the `~` is the whole input or is followed by `/` and `home` is known, and
/// `input` unchanged otherwise. Inputs that begin with `~\` are left out, since
/// what they expand to differs between platforms.
#[verifier::external_body]
fn tilde_with_home(input: &str, home: Option<&str>) -> (expanded: String)
    requires
        !(input@.len() >= 2 && input@[0] == '~' && input@[1] == '\\'),
    ensures
        expanded@ == expand_tilde_spec(input@, opt_text(home)),
{
    shellexpand::tilde_with_context(input, || home).into_owned()
}

/// Expands a leading home-directory placeholder in `input`.
pub fn expand_tilde(input: &str, home: Option<&str>) -> (expanded: String)
    ensures
        expanded@ == expand_tilde_spec(input@, opt_text(home)),
{
    if input.unicode_len() >= 2 && input.get_char(0) == '~' && input.get_char(1) == '\\' {
        String::from_str(input)
    } else {
        tilde_with_home(input, home)
    }
}

/// Whether the characters of `path` from `from` up to `to` form a whole component.
pub open spec fn is_component(path: Seq<char>, from: int, to: int) -> bool {
    &&& 0 <= from <= to <= path.len()
    &&& (from == 0 || path[from - 1] == '/')
    &&& (to == path.len() || path[to] == '/')
    &&& forall|k: int| from <= k < to ==> path[k] != '/'
}

/// Whether some component of `path` is exactly `name`.
pub open spec fn has_component(path: Seq<char>, name: Seq<char>) -> bool {
    exists|from: int, to: int| #[trigger]
        is_component(path, from, to) && path.subrange(from, to) == name
}

/// Tells whether some component of `path` is exactly `name`.
pub fn contains_component(path: &str, name: &str) -> (found: bool)
    ensures
        found == has_component(path@, name@),
{
    let len = path.unicode_len();
    let mut start: usize = 0;
    let mut pos: usize = 0;
    loop
        invariant
            len == path@.len(),
            start <= pos <= len,
            start == 0 || path@[start - 1] == '/',
            forall|k: int| start <= k < pos ==> path@[k] != '/',
            forall|from: int, to: int| #[trigger]
                is_component(path@, from, to) && to < start ==> path@.subrange(from, to) != name@,
        decreases len - pos,
    {
        if pos == len || path.get_char(pos) == '/' {
            let part = path.substring_char(start, pos);
            if same_text(part, name) {
                assert(is_component(path@, start as int, pos as int));
                return true;
            }
            if pos == len {
                return false;
            }
            pos += 1;
            start = pos;
        } else {
            pos += 1;
        }
    }
}

/// Whether `path` lies at or under the directory `home`.
pub open spec fn under_home(path: Seq<char>, home: Seq<char>) -> bool {
    &&& 0 < home.len() <= path.len()
    &&& path.take(home.len() as int) == home
    &&& (path.len() == home.len() || path[home.len() as int] == '/')
}

/// `path` with the home directory at its front replaced by the placeholder
/// `~`, where `path` lies at or under a known home directory; otherwise `path`.
pub open spec fn collapse_home_spec(path: Seq<char>, home: Option<Seq<char>>) -> Seq<char> {
    if home is Some && under_home(path, home->0) {
        seq!['~'] + path.skip(home->0.len() as int)
    } else {
        path
    }
}

/// Replaces the home directory at the front of `path` by the placeholder `~`.
pub fn collapse_home(path: &str, home: Option<&str>) -> (collapsed: String)
    ensures
        collapsed@ == collapse_home_spec(path@, opt_text(home)),
{
    let home = match home {
        Some(h) => h,
        None => {
            return String::from_str(path);
        },
    };
    let path_len = path.unicode_len();
    let home_len = home.unicode_len();
    if home_len == 0 || home_len > path_len {
        return String::from_str(path);
    }
    if !same_text(path.substring_char(0, home_len), home) {
        return String::from_str(path);
    }
    if path_len > home_len && path.get_char(home_len) != '/' {
        return String::from_str(path);
    }
    proof {
        reveal_strlit("~");
    }
    String::from_str("~").concat(path.substring_char(home_len, path_len))
}

/// Collapsing the home directory of an absolute path and expanding the
/// placeholder again gives the path back.
pub proof fn lemma_collapse_then_expand(path: Seq<char>, home: Option<Seq<char>>)
    requires
        path.len() > 0,
        path[0] == '/',
    ensures
        expand_tilde_spec(collapse_home_spec(path, home), home) == path,
{
}

} // verus!
