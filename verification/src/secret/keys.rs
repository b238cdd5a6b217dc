//! The machine's key pair: an identity (the private half) and the recipient
//! (the public half) derived from it.

use vstd::prelude::*;
use vstd::string::{StrSliceExecFns, StringSliceAdditionalSpecFns};
use crate::context::Environment;
use crate::error::{ErrorKind, SyncError};
use crate::fs::change::{Action, ActionView, OWNER_ONLY};
use crate::paths::join;
use crate::text::{trim, trim_spec};

verus! {

/// The recipient text that the `age` crate derives from an identity text:
/// `None` where the text is not a well-formed X25519 identity.
pub uninterp spec fn recipient_of(identity: Seq<char>) -> Option<Seq<char>>;

/// Whether `text` is a well-formed identity.
pub open spec fn is_identity(text: Seq<char>) -> bool {
    recipient_of(text) is Some
}

/// Whether `text` is the recipient of some identity.
pub open spec fn is_recipient(text: Seq<char>) -> bool {
    exists|identity: Seq<char>| #[trigger] recipient_of(identity) == Some(text)
}

/// The private half of the machine's key pair, held as its text.
pub struct Identity {
    text: String,
}

/// The public half of a key pair, held as its text.
#[derive(Debug)]
pub struct Recipient {
    text: String,
}

impl View for Identity {
    type V = Seq<char>;

    closed spec fn view(&self) -> Seq<char> {
        self.text@
    }
}

impl View for Recipient {
    type V = Seq<char>;

    closed spec fn view(&self) -> Seq<char> {
        self.text@
    }
}

impl Clone for Identity {
    fn clone(&self) -> (copy: Identity)
        ensures
            copy@ == self@,
    {
        proof {
            use_type_invariant(self);
        }
        Identity { text: self.text.clone() }
    }
}

impl Clone for Recipient {
    fn clone(&self) -> (copy: Recipient)
        ensures
            copy@ == self@,
    {
        proof {
            use_type_invariant(self);
        }
        Recipient { text: self.text.clone() }
    }
}

impl Identity {
    #[verifier::type_invariant]
    spec fn well_formed(&self) -> bool {
        is_identity(self.text@)
    }

    /// The identity's text, as it is persisted.
    pub fn text(&self) -> (text: &str)
        ensures
            text@ == self@,
            is_identity(text@),
    {
        proof {
            use_type_invariant(self);
        }
        self.text.as_str()
    }
}

impl Recipient {
    #[verifier::type_invariant]
    spec fn well_formed(&self) -> bool {
        is_recipient(self.text@)
    }

    /// The recipient's text.
    pub fn text(&self) -> (text: &str)
        ensures
            text@ == self@,
            is_recipient(text@),
    {
        proof {
            use_type_invariant(self);
        }
        self.text.as_str()
    }
}

/// Calls `age::x25519::Identity::generate` and serialises the new identity
/// with its `to_string`.
///
/// Trusted: the text that comes back is a well-formed identity, and, being
/// Bech32, has no white space at either end. Which identity it is is left
/// open: each call draws fresh randomness.
#[verifier::external_body]
fn age_generate() -> (text: String)
    ensures
        is_identity(text@),
        trim_spec(text@) == text@,
{
    let key = age::x25519::Identity::generate();
    secrecy::ExposeSecret::expose_secret(&key.to_string()).clone()
}

/// Parses `identity` with `age::x25519::Identity`'s `FromStr`, derives the
/// public half with `to_public` and serialises it.
///
/// Trusted: the result is the value that [`recipient_of`] names, so `None`
/// exactly where the text does not parse as an identity.
#[verifier::external_body]
fn age_public(identity: &str) -> (recipient: Option<String>)
    ensures
        match recipient {
            Some(r) => recipient_of(identity@) == Some(r@),
            None => recipient_of(identity@) is None,
        },
{
    let key = identity.parse::<age::x25519::Identity>().ok()?;
    Some(key.to_public().to_string())
}

/// Where the persisted identity lies: `key.txt` in machine-local storage,
/// outside the managed directory.
pub fn get_key_path(env: &Environment) -> (path: String)
    ensures
        path@ == env@.key_path(),
{
    join(env.data_dir.as_str(), "key.txt")
}

/// Asks for the identity text `key` to be persisted: written to the key file
/// in machine-local storage, readable and writable by its owner only.
pub fn save_key(env: &Environment, key: &str) -> (write: Action)
    ensures
        write@ == (ActionView::Write {
            path: env@.key_path(),
            content: key.spec_bytes(),
            mode: OWNER_ONLY,
        }),
{
    Action::Write { path: get_key_path(env), content: key.as_bytes_vec(), mode: OWNER_ONLY }
}

/// Produces the text of a fresh identity: one that [`load_key`] accepts as it is.
pub fn generate_key() -> (key: String)
    ensures
        is_identity(key@),
        identity_in(Some(key@)) == Ok::<Seq<char>, ErrorKind>(key@),
{
    age_generate()
}

/// What loading yields from the persisted text: the trimmed text where it is a
/// well-formed identity, and otherwise the class of the failure.
pub open spec fn identity_in(content: Option<Seq<char>>) -> Result<Seq<char>, ErrorKind> {
    match content {
        None => Err(ErrorKind::NotInitialized),
        Some(text) => if is_identity(trim_spec(text)) {
            Ok(trim_spec(text))
        } else {
            Err(ErrorKind::CryptoFailure)
        },
    }
}

/// What a failure to load the identity says: that there is none, or that the
/// one there is corrupt.
pub open spec fn key_complaint(kind: ErrorKind) -> Seq<char> {
    if kind == ErrorKind::NotInitialized {
        "no identity has been generated"@
    } else {
        "the persisted identity is corrupt"@
    }
}

/// The view of an optional string slice.
pub open spec fn opt_view(content: Option<&str>) -> Option<Seq<char>> {
    match content {
        Some(t) => Some(t@),
        None => None,
    }
}

/// Parses the persisted identity. `content` is the text of the key file, or
/// `None` where there is no such file.
///
/// Fails with `NotInitialized` where the file is absent and with
/// `CryptoFailure` where its trimmed text is not a well-formed identity; the
/// failure says which of the two it is (see [`key_complaint`]).
pub fn load_key(content: Option<&str>) -> (loaded: Result<Identity, SyncError>)
    ensures
        match loaded {
            Ok(identity) => identity_in(opt_view(content)) == Ok::<Seq<char>, ErrorKind>(identity@),
            Err(e) => identity_in(opt_view(content)) == Err::<Seq<char>, ErrorKind>(e.kind)
                && e.context@ == key_complaint(e.kind),
        },
{
    match content {
        None => Err(SyncError::new(ErrorKind::NotInitialized, "no identity has been generated")),
        Some(raw) => {
            let text = trim(raw);
            match age_public(text.as_str()) {
                Some(_) => Ok(Identity { text }),
                None => Err(SyncError::new(ErrorKind::CryptoFailure, "the persisted identity is corrupt")),
            }
        },
    }
}

/// Derives the public half of `identity`.
pub fn get_public_key(identity: &Identity) -> (recipient: Recipient)
    ensures
        recipient_of(identity@) == Some(recipient@),
{
    proof {
        use_type_invariant(identity);
    }
    match age_public(identity.text.as_str()) {
        Some(text) => Recipient { text },
        None => vstd::pervasive::unreached(),
    }
}

} // verus!
