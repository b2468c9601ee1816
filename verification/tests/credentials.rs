use pmo_backend::error::ErrorKind;
use pmo_backend::services::AuthService;

#[test]
fn a_password_verifies_against_its_own_hash() {
    for password in ["Password1!", "MyStr0ng@Pass", "", "pässwörd with spaces"] {
        let hash = AuthService::hash_password(password).unwrap();
        assert_eq!(AuthService::verify_password(password, &hash).unwrap(), true);
    }
}

#[test]
fn two_hashes_of_one_password_differ_and_both_verify() {
    let first = AuthService::hash_password("Password1!").unwrap();
    let second = AuthService::hash_password("Password1!").unwrap();
    assert_ne!(first, second);
    assert!(AuthService::verify_password("Password1!", &first).unwrap());
    assert!(AuthService::verify_password("Password1!", &second).unwrap());
}

#[test]
fn another_password_does_not_verify() {
    let hash = AuthService::hash_password("Password1!").unwrap();
    assert_eq!(AuthService::verify_password("Password2!", &hash).unwrap(), false);
    assert_eq!(AuthService::verify_password("password1!", &hash).unwrap(), false);
    assert_eq!(AuthService::verify_password("", &hash).unwrap(), false);
    assert_eq!(AuthService::verify_password("Password1! ", &hash).unwrap(), false);
}

#[test]
fn a_hash_is_a_phc_string_of_argon2id() {
    let hash = AuthService::hash_password("Password1!").unwrap();
    assert!(hash.starts_with("$argon2id$v=19$m=19456,t=2,p=1$"));
    assert_eq!(hash.matches('$').count(), 5);
    assert_ne!(hash, "Password1!");
}

#[test]
fn a_salt_fixes_the_hash() {
    let salt = b"somesaltsomesalt";
    let one = AuthService::hash_with_salt("Password1!", salt).unwrap();
    let same = AuthService::hash_with_salt("Password1!", salt).unwrap();
    let other_salt = AuthService::hash_with_salt("Password1!", b"othersaltabcdefg").unwrap();
    let other_password = AuthService::hash_with_salt("Password2!", salt).unwrap();
    assert_eq!(one, same);
    assert_ne!(one, other_salt);
    assert_ne!(one, other_password);
    // The salt stands in the credential, in base 64 without padding.
    assert!(one.starts_with("$argon2id$v=19$m=19456,t=2,p=1$c29tZXNhbHRzb21lc2FsdA$"));
    assert!(AuthService::verify_password("Password1!", &one).unwrap());
    assert!(!AuthService::verify_password("Password2!", &one).unwrap());
    // What the hash function itself gives for the same password and salt.
    let encoded = argon2::password_hash::SaltString::encode_b64(salt).unwrap();
    let expected = argon2::PasswordHasher::hash_password(
        &argon2::Argon2::default(),
        b"Password1!",
        &encoded,
    )
    .unwrap()
    .to_string();
    assert_eq!(one, expected);
}

#[test]
fn a_salt_that_is_too_short_or_too_long_gives_no_hash() {
    for salt in [&b""[..], &b"ab"[..], &b"abc"[..], &[7u8; 7][..], &[7u8; 49][..], &[7u8; 64][..], &[7u8; 1000][..]] {
        let error = AuthService::hash_with_salt("Password1!", salt).unwrap_err();
        assert_eq!(error.kind(), ErrorKind::Internal);
        assert_eq!(error.message(), "Failed to hash password");
    }
    for salt in [&[7u8; 8][..], &[7u8; 16][..], &[7u8; 47][..], &[7u8; 48][..]] {
        let hash = AuthService::hash_with_salt("Password1!", salt).unwrap();
        assert!(AuthService::verify_password("Password1!", &hash).unwrap());
    }
}

#[test]
fn a_known_hash_verifies() {
    // Argon2id, version 19, memory 19456 KiB, two passes, one lane, over the
    // password "Password1!" and the salt "somesaltsomesalt".
    let salt = argon2::password_hash::SaltString::encode_b64(b"somesaltsomesalt").unwrap();
    let made = argon2::PasswordHasher::hash_password(
        &argon2::Argon2::default(),
        b"Password1!",
        &salt,
    )
    .unwrap()
    .to_string();
    assert!(AuthService::verify_password("Password1!", &made).unwrap());
    assert!(!AuthService::verify_password("Password1?", &made).unwrap());
}

#[test]
fn a_malformed_credential_is_an_internal_error() {
    for stored in ["", "not a hash", "Password1!", "$argon2id$", "argon2id$v=19$m=19456,t=2,p=1$c29tZXNhbHQ$aGFzaA"] {
        let error = AuthService::verify_password("Password1!", stored).unwrap_err();
        assert_eq!(error.kind(), ErrorKind::Internal);
        assert_eq!(error.message(), "Invalid password hash");
    }
}

#[test]
fn a_credential_with_parameters_out_of_range_does_not_verify() {
    for stored in [
        "$argon2id$v=19$m=8,t=1,p=1$c29tZXNhbHRzb21lc2FsdA$aGFzaGhhc2hoYXNoaGFzaGhhc2hoYXNoaGFzaGhhc2g",
        "$argon2id$v=19$m=0,t=2,p=1$c29tZXNhbHRzb21lc2FsdA$aGFzaGhhc2hoYXNoaGFzaGhhc2hoYXNoaGFzaGhhc2g",
        "$argon2id$v=19$m=19456,t=0,p=1$c29tZXNhbHRzb21lc2FsdA$aGFzaGhhc2hoYXNoaGFzaGhhc2hoYXNoaGFzaGhhc2g",
        "$argon2id$v=19$m=19456,t=2,p=0$c29tZXNhbHRzb21lc2FsdA$aGFzaGhhc2hoYXNoaGFzaGhhc2hoYXNoaGFzaGhhc2g",
        "$argon2id$v=18$m=19456,t=2,p=1$c29tZXNhbHRzb21lc2FsdA$aGFzaGhhc2hoYXNoaGFzaGhhc2hoYXNoaGFzaGhhc2g",
        "$argon2id$v=19$m=19456,t=2,p=1$c29t$aGFzaGhhc2hoYXNoaGFzaGhhc2hoYXNoaGFzaGhhc2g",
        "$argon2id$v=19$m=19456,t=2,p=1$c29tZXNhbHRzb21lc2FsdA",
        "$argon2id$v=19$m=19456,t=2,p=1",
        "$argon2id",
    ] {
        assert_eq!(AuthService::verify_password("Password1!", stored).unwrap(), false);
    }
}

#[test]
fn a_credential_of_another_algorithm_does_not_verify() {
    let stored = "$scrypt$ln=15,r=8,p=1$c29tZXNhbHRzb21lc2FsdA$aGFzaGhhc2hoYXNoaGFzaGhhc2hoYXNoaGFzaGhhc2g";
    assert_eq!(AuthService::verify_password("Password1!", stored).unwrap(), false);
}

#[test]
fn the_outcome_of_the_hash_function_is_handed_on() {
    let kept = AuthService::credential_from(Ok("$argon2id$abc".to_string())).unwrap();
    assert_eq!(kept, "$argon2id$abc");
    let error = AuthService::credential_from(Err(argon2::password_hash::Error::Password)).unwrap_err();
    assert_eq!(error.kind(), ErrorKind::Internal);
    assert_eq!(error.message(), "Failed to hash password");
}
