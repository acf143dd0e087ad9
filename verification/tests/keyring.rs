use gaze::keyring::{
    account_from, check_caller, check_directory, check_record_file, check_record_size,
    credential_key, decrypt_with, encrypt, encrypt_with_nonce, enroll, ensure_root,
    ensure_unchanged, ensure_unlock_enabled, forget, load, parse_record, prepare_record,
    record_path, look_up, store_under, temporary_path, unlock, validate_password, Account,
    DirectoryFacts, KeyringError, NodeMeta, Phase, ShadowEntry, UserEntry, MAX_BLOB,
    MAX_PASSWORD, STORE_DIR,
};
use std::cell::{Cell, RefCell};

const KEY: [u8; 32] = [7; 32];

fn account() -> Account {
    Account::bound_to(1000, "alice", b"shadow-hash")
}

fn blob() -> Vec<u8> {
    encrypt(&KEY, &account(), b"test password", b"public", b"private").unwrap()
}

#[test]
fn authenticated_record_round_trips_without_plaintext_on_disk() {
    let record = blob();
    assert!(!record.windows(13).any(|w| w == b"test password"));
    let secret = decrypt_with(&record, &account(), |public, private| {
        assert_eq!(public, b"public");
        assert_eq!(private, b"private");
        Ok(KEY)
    })
    .ok()
    .unwrap();
    assert_eq!(secret.as_slice(), b"test password\0");
    assert_ne!(record, blob(), "fresh nonce on every enrollment");
}

#[test]
fn password_changes_uid_reuse_and_record_swaps_cannot_release_credentials() {
    for changed in [
        Account::bound_to(1000, "alice", b"new-hash"),
        Account::bound_to(1001, "alice", b"shadow-hash"),
        Account::bound_to(1000, "bob", b"shadow-hash"),
    ] {
        assert!(decrypt_with(&blob(), &changed, |_, _| Ok(KEY)).is_err());
    }
}

#[test]
fn missing_reset_or_wrong_tpm_and_tampering_fail_closed() {
    assert!(decrypt_with(&blob(), &account(), |_, _| Err(KeyringError::Unseal(
        "TPM missing/reset".to_string()
    )))
    .is_err());
    assert!(decrypt_with(&blob(), &account(), |_, _| Ok([9; 32])).is_err());
    let mut corrupt = blob();
    *corrupt.last_mut().unwrap() ^= 1;
    assert!(decrypt_with(&corrupt, &account(), |_, _| Ok(KEY)).is_err());
}

#[test]
fn malformed_records_are_rejected_before_touching_tpm() {
    let mut overflow = blob();
    overflow[4..8].copy_from_slice(&u32::MAX.to_le_bytes());
    for invalid in [
        vec![],
        b"plaintext password".to_vec(),
        overflow,
        vec![0; MAX_BLOB + 1],
    ] {
        let touched = Cell::new(false);
        assert!(decrypt_with(&invalid, &account(), |_, _| {
            touched.set(true);
            Ok(KEY)
        })
        .is_err());
        assert!(!touched.get());
    }
    let blob = blob();
    for end in 0..blob.len() {
        assert!(decrypt_with(&blob[..end], &account(), |_, _| Ok(KEY)).is_err());
    }
}

#[test]
fn password_limits_and_c_string_safety() {
    for password in [
        vec![],
        b"embedded\0nul".to_vec(),
        vec![b'x'; MAX_PASSWORD + 1],
    ] {
        assert!(encrypt(&KEY, &account(), &password, b"p", b"s").is_err());
    }
    let password = vec![b'x'; MAX_PASSWORD];
    let blob = encrypt(&KEY, &account(), &password, b"p", b"s").unwrap();
    assert_eq!(
        decrypt_with(&blob, &account(), |_, _| Ok(KEY))
            .ok()
            .unwrap()
            .as_slice()
            .len(),
        MAX_PASSWORD + 1
    );
}

#[test]
fn records_are_laid_out_as_documented() {
    let record = encrypt_with_nonce(&KEY, &account(), b"pw", b"pub", b"priv", &[5; 12]).unwrap();
    assert_eq!(&record[..4], b"GZK1");
    assert_eq!(&record[4..12], &[3, 0, 0, 0, 4, 0, 0, 0]);
    assert_eq!(&record[12..19], b"pubpriv");
    assert_eq!(&record[19..31], &[5; 12]);
    assert_eq!(record.len(), 31 + 3 + 16);
    let parsed = parse_record(&record).ok().unwrap();
    assert_eq!(parsed.public, b"pub");
    assert_eq!(parsed.private, b"priv");
    assert_eq!(parsed.nonce, &[5; 12]);
    assert_eq!(parsed.ciphertext.len(), 3);
    assert_eq!(parsed.tag.len(), 16);
    assert_ne!(parsed.ciphertext, b"pw\0");
    let again = encrypt_with_nonce(&KEY, &account(), b"pw", b"pub", b"priv", &[5; 12]).unwrap();
    assert_eq!(record, again);
}

#[test]
fn each_rule_of_the_format_has_its_error() {
    let error = |bytes: &[u8]| parse_record(bytes).err().unwrap();
    assert!(matches!(error(b"GZK1"), KeyringError::InvalidRecord));
    assert!(matches!(
        error(b"GZK2\0\0\0\0\0\0\0\0"),
        KeyringError::InvalidRecord
    ));
    assert!(matches!(
        error(b"GZK1\x01\x10\0\0\0\0\0\0"),
        KeyringError::InvalidSealedKeyLength
    ));
    let mut short = b"GZK1\0\0\0\0\0\0\0\0".to_vec();
    short.extend_from_slice(&[0; 28]);
    assert!(matches!(error(&short), KeyringError::TruncatedRecord));
    short.push(0);
    assert!(parse_record(&short).is_ok());
}

#[test]
fn only_passwords_with_their_terminator_are_released() {
    // Sealing demands a password; a record of another account's key is refused as such.
    let record = blob();
    match decrypt_with(&record, &account(), |_, _| Ok([0; 32])) {
        Err(e) => assert_eq!(
            e.message(),
            "credential unavailable: account password changed, wrong TPM, or corrupt record"
        ),
        Ok(_) => panic!("released under a wrong key"),
    }
    assert!(matches!(
        encrypt(&KEY, &account(), b"x", &[0; 4097], b"s"),
        Err(KeyringError::InvalidSealedKey)
    ));
}

#[test]
fn a_record_is_checked_before_it_is_stored() {
    let record = prepare_record(
        &KEY,
        Some([5; 12]),
        &account(),
        b"pw",
        b"p",
        b"s",
        |public: &[u8], private: &[u8]| {
            assert_eq!((public, private), (&b"p"[..], &b"s"[..]));
            Ok(KEY)
        },
    )
    .unwrap();
    assert_eq!(
        record,
        encrypt_with_nonce(&KEY, &account(), b"pw", b"p", b"s", &[5; 12]).unwrap()
    );
    let refused = |nonce, password: &[u8], public: &[u8], key| {
        let unsealed = Cell::new(false);
        let error = prepare_record(
            &KEY,
            nonce,
            &account(),
            password,
            public,
            b"s",
            |_: &[u8], _: &[u8]| {
                unsealed.set(true);
                Ok(key)
            },
        )
        .unwrap_err();
        (error, unsealed.get())
    };
    assert!(matches!(
        refused(Some([5; 12]), b"pw", b"p", [1; 32]),
        (KeyringError::CredentialUnavailable, true)
    ));
    assert!(matches!(
        refused(Some([5; 12]), b"", b"p", KEY),
        (KeyringError::InvalidPassword, false)
    ));
    assert!(matches!(
        refused(None, b"pw", &[0; 4097], KEY),
        (KeyringError::InvalidSealedKey, false)
    ));
    assert!(matches!(
        refused(None, b"pw", b"p", KEY),
        (KeyringError::RandomUnavailable, false)
    ));
}

#[test]
fn passwords_are_validated() {
    assert!(validate_password(b"x").is_ok());
    assert!(validate_password(&[b'x'; MAX_PASSWORD]).is_ok());
    assert!(validate_password(b"").is_err());
    assert!(validate_password(b"a\0").is_err());
    assert_eq!(
        validate_password(b"").unwrap_err().message(),
        "keyring password must contain 1..=4096 bytes and no NUL"
    );
}

#[test]
fn accounts_need_a_usable_password() {
    assert!(matches!(
        Account::uid(1000, "alice", Some(1000)),
        Err(KeyringError::SetupRequiresRoot)
    ));
    assert_eq!(
        Account::uid(0, "al\0i\0ce", Some(1000)).unwrap_err().message(),
        "nul byte found in provided data at position: 2"
    );
    assert!(check_caller(0, "alice").is_ok());
    assert!(matches!(
        check_caller(0, "\0"),
        Err(KeyringError::InvalidUsername { position: 0 })
    ));
    assert!(matches!(
        Account::uid(0, "alice", None),
        Err(KeyringError::AccountNotFound)
    ));
    assert!(matches!(
        Account::uid(0, "root", Some(0)),
        Err(KeyringError::RootAccount)
    ));
    assert_eq!(Account::uid(0, "alice", Some(1000)).unwrap(), 1000);

    let lookup = |password: Option<&[u8]>, last_change: i64| {
        Account::lookup(
            1000,
            "alice",
            Some(ShadowEntry {
                password: password.map(|p| p.to_vec()),
                last_change,
            }),
        )
    };
    assert!(matches!(
        Account::lookup(1000, "alice", None).err().unwrap(),
        KeyringError::NoShadowRecord
    ));
    assert!(matches!(
        lookup(None, 1).err().unwrap(),
        KeyringError::PasswordChangeRequired
    ));
    assert!(matches!(
        lookup(Some(b"x"), 0).err().unwrap(),
        KeyringError::PasswordChangeRequired
    ));
    for locked in [&b""[..], b"!x", b"*"] {
        assert!(matches!(
            lookup(Some(locked), 1).err().unwrap(),
            KeyringError::PasswordEmptyOrLocked
        ));
    }
    let found = lookup(Some(b"shadow-hash"), 1).ok().unwrap();
    assert_eq!(found.user_id(), 1000);
    assert!(found.same_binding(&account()));
    let other = Account::bound_to(1000, "alice", b"new-hash");
    assert!(!found.same_binding(&other));
    assert!(ensure_unchanged(&found, &account(), Phase::Unlock).is_ok());
    assert_eq!(
        ensure_unchanged(&found, &other, Phase::Unlock)
            .unwrap_err()
            .message(),
        "account changed during unlock"
    );
    assert_eq!(
        ensure_unchanged(&found, &other, Phase::Enrollment)
            .unwrap_err()
            .message(),
        "account changed during enrollment; retry"
    );
}

#[test]
fn keys_and_gates() {
    assert_eq!(credential_key(&KEY).unwrap(), KEY);
    assert_eq!(
        credential_key(&[1; 31]).unwrap_err().message(),
        "invalid credential key length"
    );
    assert!(ensure_root(0).is_ok());
    assert_eq!(
        ensure_root(1000).unwrap_err().message(),
        "keyring access requires root"
    );
    assert!(ensure_unlock_enabled(true).is_ok());
    assert_eq!(
        ensure_unlock_enabled(false).unwrap_err().message(),
        "enable GNOME Keyring unlock with gaze config first"
    );
}

fn meta(mode: u32) -> NodeMeta {
    NodeMeta {
        is_dir: true,
        is_file: false,
        uid: 0,
        mode,
        links: 2,
    }
}

#[test]
fn directories_must_be_guarded_up_to_the_root() {
    let good = [meta(0o40700), meta(0o40755), meta(0o40755)];
    assert!(check_directory(true, &good, Ok(0o40700), 0).is_ok());
    assert!(matches!(
        check_directory(false, &good, Ok(0o40700), 0),
        Err(KeyringError::RelativeDirectory)
    ));
    assert!(matches!(
        check_directory(true, &good, Ok(0o40755), 0),
        Err(KeyringError::PublicDirectory)
    ));
    assert!(matches!(
        check_directory(true, &good, Ok(0o40700), 1),
        Err(KeyringError::UnsafeDirectory)
    ));
    let writable = [meta(0o40700), meta(0o40775)];
    assert!(matches!(
        check_directory(true, &writable, Ok(0o40700), 0),
        Err(KeyringError::UnsafeDirectory)
    ));
    let unread = || Err("permission denied".to_string());
    assert_eq!(
        check_directory(true, &good[..1], unread(), 0)
            .unwrap_err()
            .message(),
        "permission denied"
    );
    assert!(matches!(
        check_directory(true, &writable, unread(), 0),
        Err(KeyringError::UnsafeDirectory)
    ));
    let link = NodeMeta {
        is_dir: false,
        ..meta(0o120777)
    };
    assert!(check_directory(true, &[link], Ok(0o40700), 0).is_err());
}

#[test]
fn record_files_must_be_private_regular_and_single() {
    let record = NodeMeta {
        is_dir: false,
        is_file: true,
        uid: 0,
        mode: 0o100600,
        links: 1,
    };
    assert!(check_record_file(&record, 0).is_ok());
    assert!(check_record_file(&record, 1).is_err());
    for bad in [
        NodeMeta {
            mode: 0o100644,
            ..record
        },
        NodeMeta { links: 2, ..record },
        NodeMeta {
            is_file: false,
            ..record
        },
    ] {
        assert!(matches!(
            check_record_file(&bad, 0),
            Err(KeyringError::UnsafeRecord)
        ));
    }
    assert!(check_record_size(vec![0; MAX_BLOB]).is_ok());
    assert!(matches!(
        check_record_size(vec![0; MAX_BLOB + 1]),
        Err(KeyringError::RecordTooLarge)
    ));
}

#[test]
fn records_are_named_by_user_id() {
    assert_eq!(
        record_path(STORE_DIR, 1000),
        "/var/lib/gaze/keyring/1000.keyring"
    );
    assert_eq!(record_path("/x/", 0), "/x/0.keyring");
    assert_eq!(
        record_path("/d", u32::MAX),
        std::path::Path::new("/d")
            .join(format!("{}.keyring", u32::MAX))
            .to_str()
            .unwrap()
    );
    assert_eq!(
        temporary_path("/d", &account(), u64::MAX),
        format!("/d/.1000-{}.tmp", u64::MAX)
    );
}

fn alice(hash: &[u8]) -> UserEntry {
    UserEntry {
        uid: Some(1000),
        shadow: Some(ShadowEntry {
            password: Some(hash.to_vec()),
            last_change: 20000,
        }),
    }
}

fn directory(mode: u32) -> DirectoryFacts {
    DirectoryFacts {
        absolute: true,
        ancestors: vec![meta(mode), meta(0o40755)],
        mode: Ok(mode),
    }
}

#[test]
fn users_become_accounts() {
    let found = account_from(0, "alice", alice(b"shadow-hash")).ok().unwrap();
    assert_eq!(found.user_id(), 1000);
    assert!(found.same_binding(&account()));
    assert!(matches!(
        account_from(1000, "alice", alice(b"shadow-hash")).err(),
        Some(KeyringError::SetupRequiresRoot)
    ));
    assert!(matches!(
        account_from(0, "alice", alice(b"!locked")).err(),
        Some(KeyringError::PasswordEmptyOrLocked)
    ));
    assert!(directory(0o40700).check().is_ok());
    assert!(matches!(
        directory(0o40755).check(),
        Err(KeyringError::PublicDirectory)
    ));
}

#[test]
fn a_stored_credential_is_released_to_its_account() {
    let files: RefCell<Vec<(u32, Vec<u8>)>> = RefCell::new(vec![]);
    let sealed: Cell<[u8; 32]> = Cell::new([0; 32]);
    let stored = enroll(
        0,
        "alice",
        b"test password",
        || alice(b"shadow-hash"),
        || directory(0o40700),
        || Ok(directory(0o40700)),
        |key: &[u8; 32]| {
            sealed.set(*key);
            Ok((b"public".to_vec(), b"private".to_vec()))
        },
        |public: &[u8], private: &[u8]| {
            assert_eq!((public, private), (&b"public"[..], &b"private"[..]));
            Ok(sealed.get())
        },
        || alice(b"shadow-hash"),
        |account: &Account, blob: &[u8]| {
            files.borrow_mut().push((account.user_id(), blob.to_vec()));
            Ok(())
        },
    );
    assert!(stored.is_ok());
    assert_ne!(sealed.get(), [0; 32]);
    let (uid, blob) = files.borrow()[0].clone();
    assert_eq!(uid, 1000);
    let loaded = |after: &'static [u8]| {
        let blob = blob.clone();
        load(
            0,
            "alice",
            || Ok(Some(directory(0o40700))),
            || Some(1000),
            |path: String| {
                assert_eq!(path, "/var/lib/gaze/keyring/1000.keyring");
                Ok(Some(blob))
            },
            || alice(b"shadow-hash"),
            |_: &[u8], _: &[u8]| Ok(sealed.get()),
            move || alice(after),
        )
    };
    let secret = loaded(b"shadow-hash").ok().unwrap().unwrap();
    assert_eq!(secret.as_slice(), b"test password\0");
    assert!(matches!(
        loaded(b"new-hash").err(),
        Some(KeyringError::ChangedDuringUnlock)
    ));
    assert!(matches!(
        loaded(b"*").err(),
        Some(KeyringError::PasswordEmptyOrLocked)
    ));
}

#[test]
fn loading_stops_at_the_first_failure() {
    // How far each attempt gets is what the closures count.
    let steps = Cell::new(0);
    let attempt = |euid: u32, seen: Result<Option<DirectoryFacts>, KeyringError>, uid, contents| {
        steps.set(0);
        load(
            euid,
            "alice",
            || {
                steps.set(1);
                seen
            },
            || {
                steps.set(2);
                uid
            },
            |_: String| {
                steps.set(3);
                contents
            },
            || {
                steps.set(4);
                alice(b"shadow-hash")
            },
            |_: &[u8], _: &[u8]| {
                steps.set(5);
                Err(KeyringError::Unseal("TPM missing/reset".to_string()))
            },
            || {
                steps.set(6);
                alice(b"shadow-hash")
            },
        )
    };
    let fine = || Ok(Some(directory(0o40700)));
    assert!(matches!(
        attempt(1000, fine(), Some(1000), Ok(None)).err(),
        Some(KeyringError::AccessRequiresRoot)
    ));
    assert_eq!(steps.get(), 0);
    assert!(matches!(attempt(0, Ok(None), Some(1000), Ok(None)), Ok(None)));
    assert_eq!(steps.get(), 1);
    assert!(matches!(
        attempt(0, Ok(Some(directory(0o40755))), Some(1000), Ok(None)).err(),
        Some(KeyringError::PublicDirectory)
    ));
    assert_eq!(steps.get(), 1);
    let unreadable = KeyringError::System("permission denied".to_string());
    let error = attempt(0, Err(unreadable), Some(1000), Ok(None)).err().unwrap();
    assert_eq!(error.message(), "permission denied");
    assert!(matches!(
        attempt(0, fine(), None, Ok(None)).err(),
        Some(KeyringError::AccountNotFound)
    ));
    assert_eq!(steps.get(), 2);
    assert!(matches!(attempt(0, fine(), Some(1000), Ok(None)), Ok(None)));
    assert_eq!(steps.get(), 3);
    assert!(matches!(
        attempt(0, fine(), Some(1000), Err(KeyringError::UnsafeRecord)).err(),
        Some(KeyringError::UnsafeRecord)
    ));
    assert!(matches!(
        attempt(0, fine(), Some(1000), Ok(Some(b"GZK1".to_vec()))).err(),
        Some(KeyringError::InvalidRecord)
    ));
    assert_eq!(steps.get(), 4);
    assert!(matches!(
        attempt(0, fine(), Some(1000), Ok(Some(blob()))).err(),
        Some(KeyringError::Unseal(_))
    ));
    assert_eq!(steps.get(), 5);
}

#[test]
fn unlocking_looks_at_the_account_twice() {
    let record = blob();
    let opened = unlock(
        "alice",
        &record,
        || alice(b"shadow-hash"),
        |_: &[u8], _: &[u8]| Ok(KEY),
        || alice(b"shadow-hash"),
    );
    assert_eq!(opened.ok().unwrap().as_slice(), b"test password\0");
    let refused = unlock(
        "alice",
        &record,
        || alice(b"new-hash"),
        |_: &[u8], _: &[u8]| Ok(KEY),
        || alice(b"new-hash"),
    );
    assert!(matches!(
        refused.err(),
        Some(KeyringError::CredentialUnavailable)
    ));
}

#[test]
fn nothing_is_written_unless_the_record_opens_for_the_same_account() {
    let written = Cell::new(false);
    let attempt = |euid: u32,
                   password: &[u8],
                   made: Result<DirectoryFacts, KeyringError>,
                   half: usize,
                   key: Option<[u8; 32]>,
                   after: &'static [u8]| {
        let sealed = Cell::new([0; 32]);
        enroll(
            euid,
            "alice",
            password,
            || alice(b"shadow-hash"),
            || directory(0o40700),
            || made,
            |key: &[u8; 32]| {
                sealed.set(*key);
                Ok((vec![1; half], vec![2; 3]))
            },
            |_: &[u8], _: &[u8]| Ok(key.unwrap_or(sealed.get())),
            move || alice(after),
            |_: &Account, _: &[u8]| {
                written.set(true);
                Ok(())
            },
        )
        .err()
    };
    let same = b"shadow-hash";
    let fine = || Ok(directory(0o40700));
    assert!(matches!(
        attempt(1, b"pw", fine(), 3, None, same),
        Some(KeyringError::SetupRequiresRoot)
    ));
    assert!(matches!(
        attempt(0, b"", fine(), 3, None, same),
        Some(KeyringError::InvalidPassword)
    ));
    assert!(matches!(
        attempt(0, b"pw", Ok(directory(0o40777)), 3, None, same),
        Some(KeyringError::UnsafeDirectory)
    ));
    assert!(matches!(
        attempt(0, b"pw", Err(KeyringError::System(String::new())), 3, None, same),
        Some(KeyringError::System(_))
    ));
    assert!(matches!(
        attempt(0, b"pw", fine(), 4097, None, same),
        Some(KeyringError::InvalidSealedKey)
    ));
    assert!(matches!(
        attempt(0, b"pw", fine(), 3, Some([9; 32]), same),
        Some(KeyringError::CredentialUnavailable)
    ));
    assert!(matches!(
        attempt(0, b"pw", fine(), 3, None, b"new-hash"),
        Some(KeyringError::ChangedDuringEnrollment)
    ));
    assert!(!written.get());
    assert!(attempt(0, b"pw", fine(), 3, None, same).is_none());
    assert!(written.get());
}

#[test]
fn forgetting_removes_one_record_of_a_guarded_store() {
    let removed = RefCell::new(String::new());
    let attempt = |uid: Option<u32>, seen: Option<DirectoryFacts>| {
        forget(
            0,
            "alice",
            || uid,
            || Ok(seen),
            |path: String| {
                *removed.borrow_mut() = path;
                Ok(())
            },
        )
    };
    assert!(matches!(
        attempt(Some(0), Some(directory(0o40700))),
        Err(KeyringError::RootAccount)
    ));
    assert!(attempt(Some(1000), None).is_ok());
    assert!(matches!(
        attempt(Some(1000), Some(directory(0o40750))),
        Err(KeyringError::PublicDirectory)
    ));
    assert_eq!(*removed.borrow(), "");
    assert!(attempt(Some(1000), Some(directory(0o40700))).is_ok());
    assert_eq!(*removed.borrow(), "/var/lib/gaze/keyring/1000.keyring");
}

#[test]
fn nobody_but_root_has_an_account_looked_up() {
    let looked = Cell::new(false);
    let attempt = |euid: u32, name: &str| {
        looked.set(false);
        look_up(euid, name, || {
            looked.set(true);
            alice(b"shadow-hash")
        })
        .err()
    };
    assert!(matches!(
        attempt(1000, "alice"),
        Some(KeyringError::SetupRequiresRoot)
    ));
    assert!(!looked.get());
    assert!(matches!(
        attempt(0, "a\0"),
        Some(KeyringError::InvalidUsername { position: 1 })
    ));
    assert!(!looked.get());
    assert!(attempt(0, "alice").is_none());
    assert!(looked.get());
    let removed = forget(
        1000,
        "alice",
        || panic!("looked for the user"),
        || panic!("looked for the directory"),
        |_: String| panic!("removed the record"),
    );
    assert!(matches!(removed, Err(KeyringError::SetupRequiresRoot)));
}

#[test]
fn a_credential_is_stored_under_a_given_key_and_nonce() {
    let attempt = |nonce: Option<[u8; 12]>, sealed: Result<(Vec<u8>, Vec<u8>), KeyringError>| {
        let written = RefCell::new(Vec::new());
        let r = store_under(
            &KEY,
            nonce,
            "alice",
            &account(),
            b"pw",
            |key: &[u8; 32]| {
                assert_eq!(key, &KEY);
                sealed
            },
            |_: &[u8], _: &[u8]| Ok(KEY),
            || alice(b"shadow-hash"),
            |owner: &Account, bytes: &[u8]| {
                assert!(owner.same_binding(&account()));
                *written.borrow_mut() = bytes.to_vec();
                Ok(())
            },
        );
        (r, written.into_inner())
    };
    let halves = || Ok((b"p".to_vec(), b"s".to_vec()));
    let (stored, written) = attempt(Some([5; 12]), halves());
    assert!(stored.is_ok());
    assert_eq!(
        written,
        encrypt_with_nonce(&KEY, &account(), b"pw", b"p", b"s", &[5; 12]).unwrap()
    );
    let (refused, written) = attempt(None, halves());
    assert!(matches!(refused, Err(KeyringError::RandomUnavailable)));
    assert!(written.is_empty());
    let (refused, written) = attempt(None, Err(KeyringError::System("no TPM".to_string())));
    assert_eq!(refused.unwrap_err().message(), "no TPM");
    assert!(written.is_empty());
}
