use configsync::context::Environment;
use configsync::error::ErrorKind;
use configsync::fs::change::Action;
use configsync::secret::cipher::{decrypt, encrypt};
use configsync::secret::keys::{generate_key, get_public_key, load_key, save_key};

const SECRET_KEY: &str = "AGE-SECRET-KEY-1GQ9778VQXMMJVE8SK7J6VT8UJ4HDQAJUVSFCWCM02D8GEWQ72PVQ2Y5J33";
const PUBLIC_KEY: &str = "age1t7rxyev2z3rw82stdlrrepyc39nvn86l5078zqkf5uasdy86jp6svpy7pa";

#[test]
fn a_generated_key_loads_as_it_is() {
    let key = generate_key();
    assert!(key.starts_with("AGE-SECRET-KEY-1"));
    let identity = load_key(Some(&key)).ok().expect("a generated key is well-formed");
    assert_eq!(identity.text(), key);
}

#[test]
fn generated_keys_differ() {
    assert_ne!(generate_key(), generate_key());
}

#[test]
fn a_key_loads_from_text_with_white_space_around_it() {
    let text = format!("  {}\n", SECRET_KEY);
    let identity = load_key(Some(&text)).ok().expect("the key is well-formed");
    assert_eq!(identity.text(), SECRET_KEY);
}

#[test]
fn a_missing_key_is_not_initialized() {
    let failure = load_key(None).err().expect("nothing can be loaded");
    assert_eq!(failure.kind, ErrorKind::NotInitialized);
    assert_eq!(failure.context, "no identity has been generated");
}

#[test]
fn a_corrupt_key_is_a_crypto_failure() {
    for text in ["", "not a key", PUBLIC_KEY, "AGE-SECRET-KEY-1GQ9778VQXMMJVE8SK7J6VT8UJ4HDQAJUVSFCWCM02D8GEWQ72PVQ2Y5J34"] {
        let failure = load_key(Some(text)).err().expect("the text is no identity");
        assert_eq!(failure.kind, ErrorKind::CryptoFailure);
        assert_eq!(failure.context, "the persisted identity is corrupt");
    }
}

#[test]
fn the_public_half_is_derived_from_the_private_half() {
    let identity = load_key(Some(SECRET_KEY)).ok().unwrap();
    let recipient = get_public_key(&identity);
    assert_eq!(recipient.text(), PUBLIC_KEY);
}

#[test]
fn sealed_content_opens_to_what_was_sealed() {
    let identity = load_key(Some(&generate_key())).ok().unwrap();
    let recipient = get_public_key(&identity);
    for plaintext in [&b""[..], &b"token=hunter2\n"[..], &[0u8, 255, 1, 254, 10, 13][..]] {
        let sealed = encrypt(plaintext, &recipient).expect("sealing succeeds");
        assert_ne!(sealed.as_slice(), plaintext);
        let opened = decrypt(&sealed, &identity).expect("opening succeeds");
        assert_eq!(opened.as_slice(), plaintext);
    }
}

#[test]
fn a_large_secret_survives_the_round_trip() {
    let identity = load_key(Some(SECRET_KEY)).ok().unwrap();
    let recipient = get_public_key(&identity);
    let plaintext: Vec<u8> = (0..200_000u32).map(|i| (i % 251) as u8).collect();
    let sealed = encrypt(&plaintext, &recipient).unwrap();
    assert_eq!(decrypt(&sealed, &identity).unwrap(), plaintext);
}

#[test]
fn sealing_twice_gives_different_ciphertexts() {
    let identity = load_key(Some(SECRET_KEY)).ok().unwrap();
    let recipient = get_public_key(&identity);
    let first = encrypt(b"same", &recipient).expect("sealing succeeds");
    let second = encrypt(b"same", &recipient).expect("sealing succeeds again");
    assert_ne!(first, second);
    assert_eq!(decrypt(&first, &identity).unwrap(), b"same");
    assert_eq!(decrypt(&second, &identity).unwrap(), b"same");
}

#[test]
fn content_sealed_for_another_identity_does_not_open() {
    let mine = load_key(Some(&generate_key())).ok().unwrap();
    let theirs = load_key(Some(&generate_key())).ok().unwrap();
    let sealed = encrypt(b"for them", &get_public_key(&theirs)).unwrap();
    let failure = decrypt(&sealed, &mine).unwrap_err();
    assert_eq!(failure.kind, ErrorKind::CryptoFailure);
    assert_eq!(failure.context, "the ciphertext is malformed or was sealed for another identity");
    assert_eq!(decrypt(&sealed, &theirs).unwrap(), b"for them");
}

#[test]
fn malformed_ciphertext_does_not_open() {
    let identity = load_key(Some(SECRET_KEY)).ok().unwrap();
    for data in [&b""[..], &b"plainly not a ciphertext"[..], &b"age-encryption.org/v1\n"[..]] {
        let failure = decrypt(data, &identity).unwrap_err();
        assert_eq!(failure.kind, ErrorKind::CryptoFailure);
    }
}

#[test]
fn truncated_ciphertext_does_not_open() {
    let identity = load_key(Some(SECRET_KEY)).ok().unwrap();
    let sealed = encrypt(b"some content to seal", &get_public_key(&identity)).unwrap();
    let cut = &sealed[..sealed.len() - 5];
    assert_eq!(decrypt(cut, &identity).unwrap_err().kind, ErrorKind::CryptoFailure);
}

#[test]
fn copies_of_keys_stand_for_the_same_key() {
    let identity = load_key(Some(SECRET_KEY)).ok().unwrap();
    let recipient = get_public_key(&identity);
    assert_eq!(identity.clone().text(), identity.text());
    assert_eq!(recipient.clone().text(), recipient.text());
    let sealed = encrypt(b"x", &recipient.clone()).unwrap();
    assert_eq!(decrypt(&sealed, &identity.clone()).unwrap(), b"x");
}

#[test]
fn the_key_is_persisted_in_machine_local_storage() {
    let env = Environment {
        config_dir: "/home/u/.config/configsync".to_string(),
        data_dir: "/home/u/.local/share/configsync".to_string(),
        home: Some("/home/u".to_string()),
    };
    let write = save_key(&env, SECRET_KEY);
    assert_eq!(
        write,
        Action::Write {
            path: "/home/u/.local/share/configsync/key.txt".to_string(),
            content: SECRET_KEY.as_bytes().to_vec(),
            mode: 0o600,
        }
    );
}

#[test]
fn sealing_succeeds_for_every_kind_of_content() {
    let identity = load_key(Some(&generate_key())).ok().unwrap();
    let recipient = get_public_key(&identity);
    let exact_chunk = vec![7u8; 65_536];
    let over_chunk = vec![9u8; 65_537];
    for plaintext in [&b""[..], &[0u8][..], &exact_chunk[..], &over_chunk[..]] {
        let sealed = encrypt(plaintext, &recipient);
        assert!(sealed.is_ok());
        assert_eq!(decrypt(&sealed.unwrap(), &identity).unwrap(), plaintext);
    }
}
