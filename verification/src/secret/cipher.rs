//! Sealing content for a recipient and opening it with the matching identity.

use vstd::prelude::*;
use crate::error::{ErrorKind, SyncError};
use crate::secret::keys::{is_identity, is_recipient, recipient_of, Identity, Recipient};

verus! {

/// What the `age` crate recovers from `ciphertext` with the identity whose text
/// is `identity`: `None` where it refuses, because the ciphertext is malformed
/// or was not sealed for that identity.
pub uninterp spec fn plaintext_of(ciphertext: Seq<u8>, identity: Seq<char>) -> Option<Seq<u8>>;

/// Whether `ciphertext` opens to `plaintext` under every identity whose public
/// half is `recipient`.
pub open spec fn sealed_for(ciphertext: Seq<u8>, recipient: Seq<char>, plaintext: Seq<u8>) -> bool {
    forall|identity: Seq<char>| #[trigger]
        recipient_of(identity) == Some(recipient) ==> plaintext_of(ciphertext, identity) == Some(
            plaintext,
        )
}

/// Encrypts `data` with `age::Encryptor::with_recipients` for the one recipient
/// parsed from `recipient`, through `wrap_output`, `write_all` and `finish`.
///
/// Trusted: a ciphertext comes back, and it opens to `data` under the identity
/// the recipient was derived from. The crate fails only for an empty list of
/// recipients and for errors of the sink, and here the list has one recipient
/// and the sink is a vector in memory. Which ciphertext comes back is left
/// open, since each call draws fresh ephemeral material. Recipients that no
/// identity yields are left out: for a degenerate public key the crate stops
/// the process.
#[verifier::external_body]
fn age_encrypt(data: &[u8], recipient: &str) -> (sealed: Option<Vec<u8>>)
    requires
        is_recipient(recipient@),
    ensures
        sealed is Some,
        match sealed {
            Some(c) => sealed_for(c@, recipient@, data@),
            None => true,
        },
{
    let key = recipient.parse::<age::x25519::Recipient>().ok()?;
    let encryptor = age::Encryptor::with_recipients(vec![Box::new(key)])?;
    let mut sealed = Vec::new();
    let mut writer = encryptor.wrap_output(&mut sealed).ok()?;
    std::io::Write::write_all(&mut writer, data).ok()?;
    writer.finish().ok()?;
    Some(sealed)
}

/// Decrypts `data` with `age::Decryptor::new`, the recipients decryptor's
/// `decrypt` for the one identity parsed from `identity`, and `read_to_end`.
///
/// Trusted: the result is the value that [`plaintext_of`] names; decryption is
/// a function of the ciphertext and the identity alone.
#[verifier::external_body]
fn age_decrypt(data: &[u8], identity: &str) -> (opened: Option<Vec<u8>>)
    ensures
        match opened {
            Some(p) => plaintext_of(data@, identity@) == Some(p@),
            None => plaintext_of(data@, identity@) is None,
        },
{
    let key = identity.parse::<age::x25519::Identity>().ok()?;
    let decryptor = match age::Decryptor::new(data).ok()? {
        age::Decryptor::Recipients(d) => d,
        _ => return None,
    };
    let mut reader = decryptor.decrypt(std::iter::once(&key as &dyn age::Identity)).ok()?;
    let mut plain = Vec::new();
    std::io::Read::read_to_end(&mut reader, &mut plain).ok()?;
    Some(plain)
}

/// Seals `data` for `recipient`.
///
/// Sealing always succeeds, and the ciphertext opens to `data` under the
/// identity that `recipient` was derived from. Which ciphertext it is differs
/// from call to call.
pub fn encrypt(data: &[u8], recipient: &Recipient) -> (sealed: Result<Vec<u8>, SyncError>)
    ensures
        sealed matches Ok(c) && sealed_for(c@, recipient@, data@),
{
    let text = recipient.text();
    match age_encrypt(data, text) {
        Some(c) => Ok(c),
        // Not reached: sealing into memory for one recipient does not fail.
        None => Err(SyncError::new(ErrorKind::CryptoFailure, "encryption failed")),
    }
}

/// Opens `encrypted_data` with `identity`.
///
/// Fails with `CryptoFailure` exactly where the ciphertext is malformed or was
/// not sealed for this identity; the failure says so.
pub fn decrypt(encrypted_data: &[u8], identity: &Identity) -> (opened: Result<Vec<u8>, SyncError>)
    ensures
        match opened {
            Ok(p) => plaintext_of(encrypted_data@, identity@) == Some(p@),
            Err(e) => e.kind == ErrorKind::CryptoFailure && e.context@
                == "the ciphertext is malformed or was sealed for another identity"@
                && plaintext_of(encrypted_data@, identity@) is None,
        },
{
    match age_decrypt(encrypted_data, identity.text()) {
        Some(p) => Ok(p),
        None => Err(
            SyncError::new(
                ErrorKind::CryptoFailure,
                "the ciphertext is malformed or was sealed for another identity",
            ),
        ),
    }
}

/// Round trip: content sealed for the public half of an identity opens, under
/// that identity, to the content that was sealed.
pub proof fn lemma_round_trip(
    plaintext: Seq<u8>,
    identity: Seq<char>,
    recipient: Seq<char>,
    ciphertext: Seq<u8>,
)
    requires
        recipient_of(identity) == Some(recipient),
        sealed_for(ciphertext, recipient, plaintext),
    ensures
        is_identity(identity),
        plaintext_of(ciphertext, identity) == Some(plaintext),
{
}

} // verus!
