//! Root-only, per-account keyring credentials: the account binding, the record format
//! and the rules that a stored record and its directory must meet.
//!
//! A record is laid out as the magic bytes, the lengths of the two halves of the sealed
//! key (little-endian, 32 bits each), the two halves, the nonce, the ciphertext and the
//! tag. The plaintext is the password and a terminating zero byte, bound to the account.

use crate::crypto::{
    gcm_open, gcm_opened, gcm_seal, gcm_sealed, only_plaintext, random_array, reveal_bytes,
    secret_bytes, sha256, sha256_of, wipe, wiping, Secret,
};
use crate::text::{
    contains_text, decimal, decimal_text, joined, lemma_written_without_space, stands_at, starts,
    written_numbers_differ,
};
use vstd::bytes::{
    lemma_auto_spec_u32_to_from_le_bytes, spec_u32_from_le_bytes, spec_u32_to_le_bytes,
    u32_from_le_bytes, u32_to_le_bytes,
};
use vstd::prelude::*;
use vstd::slice::{slice_subrange, slice_to_vec};
use vstd::string::*;

verus! {

/// The directory that holds one record per account.
pub const STORE_DIR: &'static str = "/var/lib/gaze/keyring";

/// The most bytes that a record may have.
pub const MAX_BLOB: usize = 16384;

/// The most bytes that a password may have.
pub const MAX_PASSWORD: usize = 4096;

/// The most bytes that each half of the sealed key may have.
pub const MAX_SEALED: usize = 4096;

/// Why a credential was not stored or not released.
#[derive(Debug)]
pub enum KeyringError {
    SetupRequiresRoot,
    AccessRequiresRoot,
    /// The username holds a zero byte, the first one at this position.
    InvalidUsername { position: usize },
    AccountNotFound,
    RootAccount,
    NoShadowRecord,
    PasswordChangeRequired,
    PasswordEmptyOrLocked,
    InvalidPassword,
    InvalidSealedKey,
    RandomUnavailable,
    EncryptionFailed,
    InvalidRecord,
    InvalidSealedKeyLength,
    TruncatedRecord,
    /// The sealed key could not be unsealed; the text says why.
    Unseal(String),
    /// The system refused; the text says why.
    System(String),
    KeyUnavailable,
    CredentialUnavailable,
    InvalidTerminator,
    RelativeDirectory,
    UnsafeDirectory,
    PublicDirectory,
    UnsafeRecord,
    RecordTooLarge,
    ChangedDuringEnrollment,
    ChangedDuringUnlock,
    InvalidKeyLength,
    UnlockDisabled,
}

impl KeyringError {
    /// The message that the error is shown with.
    pub open spec fn message_text(self) -> Seq<char> {
        match self {
            KeyringError::SetupRequiresRoot => "keyring setup requires root"@,
            KeyringError::AccessRequiresRoot => "keyring access requires root"@,
            KeyringError::InvalidUsername { position } =>
                "nul byte found in provided data at position: "@ + decimal_text(position as nat),
            KeyringError::AccountNotFound => "account not found"@,
            KeyringError::RootAccount => "root keyring enrollment is not supported"@,
            KeyringError::NoShadowRecord => "a readable shadow password record is required"@,
            KeyringError::PasswordChangeRequired => "account requires a password change"@,
            KeyringError::PasswordEmptyOrLocked => "account password is empty or locked"@,
            KeyringError::InvalidPassword =>
                "keyring password must contain 1..=4096 bytes and no NUL"@,
            KeyringError::InvalidSealedKey => "invalid sealed key"@,
            KeyringError::RandomUnavailable => "random nonce unavailable"@,
            KeyringError::EncryptionFailed => "credential encryption failed"@,
            KeyringError::InvalidRecord => "invalid credential record"@,
            KeyringError::InvalidSealedKeyLength => "invalid sealed key length"@,
            KeyringError::TruncatedRecord => "truncated credential record"@,
            KeyringError::Unseal(why) => why@,
            KeyringError::System(why) => why@,
            KeyringError::KeyUnavailable => "random key unavailable"@,
            KeyringError::CredentialUnavailable =>
                "credential unavailable: account password changed, wrong TPM, or corrupt record"@,
            KeyringError::InvalidTerminator => "invalid credential terminator"@,
            KeyringError::RelativeDirectory => "credential directory must be absolute"@,
            KeyringError::UnsafeDirectory =>
                "credential directory has unsafe ownership, permissions, or a symlink"@,
            KeyringError::PublicDirectory => "credential directory must be private"@,
            KeyringError::UnsafeRecord =>
                "credential record has unsafe ownership, permissions, or type"@,
            KeyringError::RecordTooLarge => "credential record is too large"@,
            KeyringError::ChangedDuringEnrollment => "account changed during enrollment; retry"@,
            KeyringError::ChangedDuringUnlock => "account changed during unlock"@,
            KeyringError::InvalidKeyLength => "invalid credential key length"@,
            KeyringError::UnlockDisabled => "enable GNOME Keyring unlock with gaze config first"@,
        }
    }

    /// The message that the error is shown with.
    pub fn message(&self) -> (r: String)
        ensures
            r@ == self.message_text(),
    {
        let text: &str = match self {
            KeyringError::InvalidUsername { position } => {
                return joined(
                    "nul byte found in provided data at position: ",
                    decimal(*position as u64).as_str(),
                );
            },
            KeyringError::SetupRequiresRoot => "keyring setup requires root",
            KeyringError::AccessRequiresRoot => "keyring access requires root",
            KeyringError::AccountNotFound => "account not found",
            KeyringError::RootAccount => "root keyring enrollment is not supported",
            KeyringError::NoShadowRecord => "a readable shadow password record is required",
            KeyringError::PasswordChangeRequired => "account requires a password change",
            KeyringError::PasswordEmptyOrLocked => "account password is empty or locked",
            KeyringError::InvalidPassword =>
                "keyring password must contain 1..=4096 bytes and no NUL",
            KeyringError::InvalidSealedKey => "invalid sealed key",
            KeyringError::RandomUnavailable => "random nonce unavailable",
            KeyringError::EncryptionFailed => "credential encryption failed",
            KeyringError::InvalidRecord => "invalid credential record",
            KeyringError::InvalidSealedKeyLength => "invalid sealed key length",
            KeyringError::TruncatedRecord => "truncated credential record",
            KeyringError::Unseal(why) => why.as_str(),
            KeyringError::System(why) => why.as_str(),
            KeyringError::KeyUnavailable => "random key unavailable",
            KeyringError::CredentialUnavailable =>
                "credential unavailable: account password changed, wrong TPM, or corrupt record",
            KeyringError::InvalidTerminator => "invalid credential terminator",
            KeyringError::RelativeDirectory => "credential directory must be absolute",
            KeyringError::UnsafeDirectory =>
                "credential directory has unsafe ownership, permissions, or a symlink",
            KeyringError::PublicDirectory => "credential directory must be private",
            KeyringError::UnsafeRecord =>
                "credential record has unsafe ownership, permissions, or type",
            KeyringError::RecordTooLarge => "credential record is too large",
            KeyringError::ChangedDuringEnrollment => "account changed during enrollment; retry",
            KeyringError::ChangedDuringUnlock => "account changed during unlock",
            KeyringError::InvalidKeyLength => "invalid credential key length",
            KeyringError::UnlockDisabled => "enable GNOME Keyring unlock with gaze config first",
        };
        text.to_owned()
    }
}

// Account binding

/// An account that a credential can be bound to: its user id and a digest of its user
/// id, name and password hash. Neither printable nor copyable.
pub struct Account {
    uid: u32,
    binding: [u8; 32],
}

/// What the shadow password database holds of an account: its password hash, where
/// there is one, and the day of the last change.
pub struct ShadowEntry {
    pub password: Option<Vec<u8>>,
    pub last_change: i64,
}

/// Every message says what is wrong; what the system or the sealed key's keeper said is shown
/// as it was said, and of a name with a zero byte the place of the byte.
#[verifier::spinoff_prover]
pub proof fn messages_say_what_is_wrong(error: KeyringError)
    ensures
        error == KeyringError::SetupRequiresRoot ==> contains_text(error.message_text(), "setup requires root"@),
        error == KeyringError::AccessRequiresRoot ==> contains_text(error.message_text(), "access requires root"@),
        error == KeyringError::AccountNotFound ==> contains_text(error.message_text(), "not found"@),
        error == KeyringError::RootAccount ==> contains_text(error.message_text(), "root keyring"@),
        error == KeyringError::NoShadowRecord ==> contains_text(error.message_text(), "shadow"@),
        error == KeyringError::PasswordChangeRequired ==> contains_text(error.message_text(), "password change"@),
        error == KeyringError::PasswordEmptyOrLocked ==> contains_text(error.message_text(), "empty or locked"@),
        error == KeyringError::InvalidPassword ==> contains_text(error.message_text(), "1..=4096 bytes"@),
        error == KeyringError::InvalidSealedKey ==> contains_text(error.message_text(), "sealed key"@),
        error == KeyringError::RandomUnavailable ==> contains_text(error.message_text(), "nonce"@),
        error == KeyringError::EncryptionFailed ==> contains_text(error.message_text(), "encryption"@),
        error == KeyringError::InvalidRecord ==> contains_text(error.message_text(), "invalid credential record"@),
        error == KeyringError::InvalidSealedKeyLength ==> contains_text(error.message_text(), "sealed key length"@),
        error == KeyringError::TruncatedRecord ==> contains_text(error.message_text(), "truncated"@),
        error == KeyringError::KeyUnavailable ==> contains_text(error.message_text(), "key unavailable"@),
        error == KeyringError::CredentialUnavailable ==> contains_text(error.message_text(), "credential unavailable"@),
        error == KeyringError::InvalidTerminator ==> contains_text(error.message_text(), "terminator"@),
        error == KeyringError::RelativeDirectory ==> contains_text(error.message_text(), "must be absolute"@),
        error == KeyringError::UnsafeDirectory ==> contains_text(error.message_text(), "directory has unsafe"@),
        error == KeyringError::PublicDirectory ==> contains_text(error.message_text(), "must be private"@),
        error == KeyringError::UnsafeRecord ==> contains_text(error.message_text(), "record has unsafe"@),
        error == KeyringError::RecordTooLarge ==> contains_text(error.message_text(), "too large"@),
        error == KeyringError::ChangedDuringEnrollment ==> contains_text(error.message_text(), "during enrollment"@),
        error == KeyringError::ChangedDuringUnlock ==> contains_text(error.message_text(), "during unlock"@),
        error == KeyringError::InvalidKeyLength ==> contains_text(error.message_text(), "key length"@),
        error == KeyringError::UnlockDisabled ==> contains_text(error.message_text(), "gaze config"@),
        error matches KeyringError::Unseal(why) ==> error.message_text() == why@,
        error matches KeyringError::System(why) ==> error.message_text() == why@,
        error matches KeyringError::InvalidUsername { position } ==> stands_at(
            error.message_text(),
            decimal_text(position as nat),
            error.message_text().len() - decimal_text(position as nat).len(),
        ),
{
    let text = error.message_text();
    match error {
        KeyringError::SetupRequiresRoot => {
            reveal_strlit("keyring setup requires root");
            reveal_strlit("setup requires root");
            assert(text.subrange(8, 27) =~= "setup requires root"@);
            assert(stands_at(text, "setup requires root"@, 8));
        },
        KeyringError::AccessRequiresRoot => {
            reveal_strlit("keyring access requires root");
            reveal_strlit("access requires root");
            assert(text.subrange(8, 28) =~= "access requires root"@);
            assert(stands_at(text, "access requires root"@, 8));
        },
        KeyringError::AccountNotFound => {
            reveal_strlit("account not found");
            reveal_strlit("not found");
            assert(text.subrange(8, 17) =~= "not found"@);
            assert(stands_at(text, "not found"@, 8));
        },
        KeyringError::RootAccount => {
            reveal_strlit("root keyring enrollment is not supported");
            reveal_strlit("root keyring");
            assert(text.subrange(0, 12) =~= "root keyring"@);
            assert(stands_at(text, "root keyring"@, 0));
        },
        KeyringError::NoShadowRecord => {
            reveal_strlit("a readable shadow password record is required");
            reveal_strlit("shadow");
            assert(text.subrange(11, 17) =~= "shadow"@);
            assert(stands_at(text, "shadow"@, 11));
        },
        KeyringError::PasswordChangeRequired => {
            reveal_strlit("account requires a password change");
            reveal_strlit("password change");
            assert(text.subrange(19, 34) =~= "password change"@);
            assert(stands_at(text, "password change"@, 19));
        },
        KeyringError::PasswordEmptyOrLocked => {
            reveal_strlit("account password is empty or locked");
            reveal_strlit("empty or locked");
            assert(text.subrange(20, 35) =~= "empty or locked"@);
            assert(stands_at(text, "empty or locked"@, 20));
        },
        KeyringError::InvalidPassword => {
            reveal_strlit("keyring password must contain 1..=4096 bytes and no NUL");
            reveal_strlit("1..=4096 bytes");
            assert(text.subrange(30, 44) =~= "1..=4096 bytes"@);
            assert(stands_at(text, "1..=4096 bytes"@, 30));
        },
        KeyringError::InvalidSealedKey => {
            reveal_strlit("invalid sealed key");
            reveal_strlit("sealed key");
            assert(text.subrange(8, 18) =~= "sealed key"@);
            assert(stands_at(text, "sealed key"@, 8));
        },
        KeyringError::RandomUnavailable => {
            reveal_strlit("random nonce unavailable");
            reveal_strlit("nonce");
            assert(text.subrange(7, 12) =~= "nonce"@);
            assert(stands_at(text, "nonce"@, 7));
        },
        KeyringError::EncryptionFailed => {
            reveal_strlit("credential encryption failed");
            reveal_strlit("encryption");
            assert(text.subrange(11, 21) =~= "encryption"@);
            assert(stands_at(text, "encryption"@, 11));
        },
        KeyringError::InvalidRecord => {
            reveal_strlit("invalid credential record");
            reveal_strlit("invalid credential record");
            assert(text.subrange(0, 25) =~= "invalid credential record"@);
            assert(stands_at(text, "invalid credential record"@, 0));
        },
        KeyringError::InvalidSealedKeyLength => {
            reveal_strlit("invalid sealed key length");
            reveal_strlit("sealed key length");
            assert(text.subrange(8, 25) =~= "sealed key length"@);
            assert(stands_at(text, "sealed key length"@, 8));
        },
        KeyringError::TruncatedRecord => {
            reveal_strlit("truncated credential record");
            reveal_strlit("truncated");
            assert(text.subrange(0, 9) =~= "truncated"@);
            assert(stands_at(text, "truncated"@, 0));
        },
        KeyringError::KeyUnavailable => {
            reveal_strlit("random key unavailable");
            reveal_strlit("key unavailable");
            assert(text.subrange(7, 22) =~= "key unavailable"@);
            assert(stands_at(text, "key unavailable"@, 7));
        },
        KeyringError::CredentialUnavailable => {
            reveal_strlit("credential unavailable: account password changed, wrong TPM, or corrupt record");
            reveal_strlit("credential unavailable");
            assert(text.subrange(0, 22) =~= "credential unavailable"@);
            assert(stands_at(text, "credential unavailable"@, 0));
        },
        KeyringError::InvalidTerminator => {
            reveal_strlit("invalid credential terminator");
            reveal_strlit("terminator");
            assert(text.subrange(19, 29) =~= "terminator"@);
            assert(stands_at(text, "terminator"@, 19));
        },
        KeyringError::RelativeDirectory => {
            reveal_strlit("credential directory must be absolute");
            reveal_strlit("must be absolute");
            assert(text.subrange(21, 37) =~= "must be absolute"@);
            assert(stands_at(text, "must be absolute"@, 21));
        },
        KeyringError::UnsafeDirectory => {
            reveal_strlit("credential directory has unsafe ownership, permissions, or a symlink");
            reveal_strlit("directory has unsafe");
            assert(text.subrange(11, 31) =~= "directory has unsafe"@);
            assert(stands_at(text, "directory has unsafe"@, 11));
        },
        KeyringError::PublicDirectory => {
            reveal_strlit("credential directory must be private");
            reveal_strlit("must be private");
            assert(text.subrange(21, 36) =~= "must be private"@);
            assert(stands_at(text, "must be private"@, 21));
        },
        KeyringError::UnsafeRecord => {
            reveal_strlit("credential record has unsafe ownership, permissions, or type");
            reveal_strlit("record has unsafe");
            assert(text.subrange(11, 28) =~= "record has unsafe"@);
            assert(stands_at(text, "record has unsafe"@, 11));
        },
        KeyringError::RecordTooLarge => {
            reveal_strlit("credential record is too large");
            reveal_strlit("too large");
            assert(text.subrange(21, 30) =~= "too large"@);
            assert(stands_at(text, "too large"@, 21));
        },
        KeyringError::ChangedDuringEnrollment => {
            reveal_strlit("account changed during enrollment; retry");
            reveal_strlit("during enrollment");
            assert(text.subrange(16, 33) =~= "during enrollment"@);
            assert(stands_at(text, "during enrollment"@, 16));
        },
        KeyringError::ChangedDuringUnlock => {
            reveal_strlit("account changed during unlock");
            reveal_strlit("during unlock");
            assert(text.subrange(16, 29) =~= "during unlock"@);
            assert(stands_at(text, "during unlock"@, 16));
        },
        KeyringError::InvalidKeyLength => {
            reveal_strlit("invalid credential key length");
            reveal_strlit("key length");
            assert(text.subrange(19, 29) =~= "key length"@);
            assert(stands_at(text, "key length"@, 19));
        },
        KeyringError::UnlockDisabled => {
            reveal_strlit("enable GNOME Keyring unlock with gaze config first");
            reveal_strlit("gaze config");
            assert(text.subrange(33, 44) =~= "gaze config"@);
            assert(stands_at(text, "gaze config"@, 33));
        },
        KeyringError::InvalidUsername { position } => {
            let shown = decimal_text(position as nat);
            assert(text.subrange(text.len() - shown.len(), text.len() as int) =~= shown);
        },
        _ => {},
    }
}

/// The prefix of every binding message, with its terminating zero byte.
pub open spec fn binding_prefix() -> Seq<u8> {
    seq![
        103u8, 97u8, 122u8, 101u8, 45u8, 103u8, 110u8, 111u8, 109u8, 101u8, 45u8, 107u8, 101u8,
        121u8, 114u8, 105u8, 110u8, 103u8, 45u8, 118u8, 49u8, 0u8,
    ]
}

/// The bytes whose digest binds a credential to an account.
pub open spec fn binding_message(uid: u32, username: Seq<u8>, hash: Seq<u8>) -> Seq<u8> {
    binding_prefix() + spec_u32_to_le_bytes(uid) + username + seq![0u8] + hash
}

/// A password hash that allows the account to log in.
pub open spec fn usable_hash(hash: Seq<u8>) -> bool {
    hash.len() > 0 && hash[0] != 33 && hash[0] != 42
}

/// Whether the account of a user may be asked for: by root alone, and for a name that is a
/// C string.
pub open spec fn caller_verdict(euid: u32, username: Seq<u8>) -> Result<(), KeyringError> {
    if euid != 0 {
        Err(KeyringError::SetupRequiresRoot)
    } else {
        match username.index_of_first(0) {
            Some(position) => Err(KeyringError::InvalidUsername { position: position as usize }),
            None => Ok(()),
        }
    }
}

/// The user id that a credential may be stored under.
pub open spec fn permitted_uid(euid: u32, username: Seq<u8>, found: Option<u32>) -> Result<
    u32,
    KeyringError,
> {
    match caller_verdict(euid, username) {
        Err(e) => Err(e),
        Ok(_) => match found {
            None => Err(KeyringError::AccountNotFound),
            Some(uid) => if uid == 0 {
                Err(KeyringError::RootAccount)
            } else {
                Ok(uid)
            },
        },
    }
}

/// The binding of an account, as its shadow entry stands.
pub open spec fn shadow_binding(
    uid: u32,
    username: Seq<u8>,
    shadow: Option<ShadowEntry>,
) -> Result<Seq<u8>, KeyringError> {
    match shadow {
        None => Err(KeyringError::NoShadowRecord),
        Some(entry) => match entry.password {
            None => Err(KeyringError::PasswordChangeRequired),
            Some(hash) => if entry.last_change == 0 {
                Err(KeyringError::PasswordChangeRequired)
            } else if !usable_hash(hash@) {
                Err(KeyringError::PasswordEmptyOrLocked)
            } else {
                Ok(sha256_of(binding_message(uid, username, hash@)))
            },
        },
    }
}

/// What is digested starts with the words "gaze-gnome-keyring-v1" and a zero byte, then come
/// the user id, lowest byte first, the name, a zero byte and the password hash.
pub proof fn bindings_have_their_layout(uid: u32, username: Seq<u8>, hash: Seq<u8>)
    ensures
        ({
            let message = binding_message(uid, username, hash);
            let words = "gaze-gnome-keyring-v1"@;
            let at = 26 + username.len();
            &&& forall|i: int| 0 <= i < 21 ==> #[trigger] message[i] as int == words[i] as int
            &&& words.len() == 21
            &&& message[21] == 0
            &&& message.subrange(22, 26) == spec_u32_to_le_bytes(uid)
            &&& message.subrange(26, at as int) == username
            &&& message[at as int] == 0
            &&& message.subrange(at + 1int, message.len() as int) == hash
            &&& message.len() == at + 1 + hash.len()
        }),
{
    lemma_auto_spec_u32_to_from_le_bytes();
    reveal_strlit("gaze-gnome-keyring-v1");
    let message = binding_message(uid, username, hash);
    let at = 26 + username.len();
    assert(message.subrange(22, 26) =~= spec_u32_to_le_bytes(uid));
    assert(message.subrange(26, at as int) =~= username);
    assert(message.subrange(at + 1int, message.len() as int) =~= hash);
    assert forall|i: int| 0 <= i < 21 implies #[trigger] message[i] as int
        == "gaze-gnome-keyring-v1"@[i] as int by {
        assert(message[i] == binding_prefix()[i]);
    }
}

/// A user id is permitted exactly if root asks, by a name without a zero byte, and the name
/// is that of a user other than root. A refusal tells the first of these that is missing,
/// and of a zero byte where the first one stands.
pub proof fn only_root_stores_for_others(euid: u32, username: Seq<u8>, found: Option<u32>)
    ensures
        permitted_uid(euid, username, found) matches Ok(uid) ==> found == Some(uid) && uid != 0,
        permitted_uid(euid, username, found) is Ok <==> euid == 0 && !username.contains(0)
            && found is Some && found != Some(0u32),
        permitted_uid(euid, username, found) == Err::<u32, KeyringError>(
            KeyringError::SetupRequiresRoot,
        ) <==> euid != 0,
        permitted_uid(euid, username, found) matches Err(KeyringError::InvalidUsername { position })
            ==> euid == 0 && username.contains(0) && (username.len() <= usize::MAX ==> position
            < username.len() && username[position as int] == 0 && forall|i: int|
            0 <= i < position ==> #[trigger] username[i] != 0),
        permitted_uid(euid, username, found) == Err::<u32, KeyringError>(
            KeyringError::AccountNotFound,
        ) <==> euid == 0 && !username.contains(0) && found is None,
        permitted_uid(euid, username, found) == Err::<u32, KeyringError>(KeyringError::RootAccount)
            <==> euid == 0 && !username.contains(0) && found == Some(0u32),
        caller_verdict(euid, username) is Ok <==> euid == 0 && !username.contains(0),
{
    username.index_of_first_ensures(0);
}

/// An account has a binding exactly if its shadow entry can be read, has a password that
/// need not be changed, and the password allows to log in: its hash is not empty and starts
/// with neither "!" nor "*". The binding is the digest of what is bound.
pub proof fn locked_accounts_have_no_binding(
    uid: u32,
    username: Seq<u8>,
    entry: ShadowEntry,
    hash: Vec<u8>,
)
    ensures
        shadow_binding(uid, username, None) == Err::<Seq<u8>, KeyringError>(
            KeyringError::NoShadowRecord,
        ),
        entry.password is None || entry.last_change == 0 <==> shadow_binding(
            uid,
            username,
            Some(entry),
        ) == Err::<Seq<u8>, KeyringError>(KeyringError::PasswordChangeRequired),
        entry.password == Some(hash) && entry.last_change != 0 ==> {
            &&& hash@.len() == 0 || hash@[0] as int == '!' as int || hash@[0] as int == '*' as int
                <==> shadow_binding(uid, username, Some(entry)) == Err::<Seq<u8>, KeyringError>(
                KeyringError::PasswordEmptyOrLocked,
            )
            &&& shadow_binding(uid, username, Some(entry)) matches Ok(binding) ==> binding
                == sha256_of(binding_message(uid, username, hash@))
        },
{
}

/// Two accounts, names free of zero bytes, have one binding message only if they are
/// the same account with the same password hash: a new password, a reused user id or a
/// swapped record always changes what is digested.
pub proof fn binding_messages_are_distinct(
    uid1: u32,
    name1: Seq<u8>,
    hash1: Seq<u8>,
    uid2: u32,
    name2: Seq<u8>,
    hash2: Seq<u8>,
)
    requires
        !name1.contains(0),
        !name2.contains(0),
        binding_message(uid1, name1, hash1) == binding_message(uid2, name2, hash2),
    ensures
        uid1 == uid2,
        name1 == name2,
        hash1 == hash2,
{
    lemma_auto_spec_u32_to_from_le_bytes();
    let m1 = binding_message(uid1, name1, hash1);
    let m2 = binding_message(uid2, name2, hash2);
    assert(m1.subrange(22, 26) =~= spec_u32_to_le_bytes(uid1));
    assert(m2.subrange(22, 26) =~= spec_u32_to_le_bytes(uid2));
    assert(spec_u32_from_le_bytes(spec_u32_to_le_bytes(uid1)) == spec_u32_from_le_bytes(
        spec_u32_to_le_bytes(uid2),
    ));
    let (n1, n2) = (name1.len() as int, name2.len() as int);
    assert(m1[26 + n1] == 0 && m2[26 + n2] == 0);
    assert forall|i: int| 0 <= i < n1 implies name1[i] == #[trigger] m1[26 + i] by {}
    assert forall|i: int| 0 <= i < n2 implies name2[i] == #[trigger] m2[26 + i] by {}
    if n1 < n2 {
        assert(name2[n1] == m2[26 + n1]);
        assert(name2.contains(0));
    }
    if n2 < n1 {
        assert(name1[n2] == m1[26 + n2]);
        assert(name1.contains(0));
    }
    assert forall|i: int| 0 <= i < n1 implies name1[i] == name2[i] by {
        assert(m1[26 + i] == m2[26 + i]);
    }
    assert(name1 =~= name2);
    assert(m1.subrange(27 + n1, m1.len() as int) =~= hash1);
    assert(m2.subrange(27 + n2, m2.len() as int) =~= hash2);
}

fn binding_prefix_bytes() -> (v: Vec<u8>)
    ensures
        v@ == binding_prefix(),
{
    vec![
        103u8, 97u8, 122u8, 101u8, 45u8, 103u8, 110u8, 111u8, 109u8, 101u8, 45u8, 107u8, 101u8,
        121u8, 114u8, 105u8, 110u8, 103u8, 45u8, 118u8, 49u8, 0u8,
    ]
}

fn find_zero(bytes: &[u8]) -> (r: Option<usize>)
    ensures
        match r {
            Some(i) => bytes@.index_of_first(0) == Some(i as int),
            None => bytes@.index_of_first(0) is None,
        },
        (r is Some) == bytes@.contains(0),
{
    proof {
        bytes@.index_of_first_ensures(0);
    }
    let mut i: usize = 0;
    while i < bytes.len()
        invariant
            i <= bytes.len(),
            forall|j: int| 0 <= j < i ==> bytes@[j] != 0,
        decreases bytes.len() - i,
    {
        if bytes[i] == 0 {
            proof {
                bytes@.index_of_first_ensures(0);
            }
            assert(bytes@[i as int] == 0);
            return Some(i);
        }
        i = i + 1;
    }
    None
}

/// Refuses to ask for an account for anybody but root, or by a name that is no C string.
pub fn check_caller(euid: u32, username: &str) -> (r: Result<(), KeyringError>)
    ensures
        r == caller_verdict(euid, username.spec_bytes()),
{
    if euid != 0 {
        return Err(KeyringError::SetupRequiresRoot);
    }
    match find_zero(username.as_bytes()) {
        Some(position) => Err(KeyringError::InvalidUsername { position }),
        None => Ok(()),
    }
}

impl Account {
    /// The account's user id.
    pub closed spec fn spec_uid(self) -> u32 {
        self.uid
    }

    /// The digest that a credential of the account is bound to.
    pub closed spec fn binding_bytes(self) -> Seq<u8> {
        self.binding@
    }

    /// The user id that a credential may be stored under: that of a known account other
    /// than root, asked for by root. `found` is what the account database says.
    pub fn uid(euid: u32, username: &str, found: Option<u32>) -> (r: Result<u32, KeyringError>)
        ensures
            r == permitted_uid(euid, username.spec_bytes(), found),
    {
        match check_caller(euid, username) {
            Err(e) => {
                return Err(e);
            },
            Ok(_) => {},
        }
        match found {
            None => Err(KeyringError::AccountNotFound),
            Some(uid) => {
                if uid == 0 {
                    Err(KeyringError::RootAccount)
                } else {
                    Ok(uid)
                }
            },
        }
    }

    /// The account with the given user id, as its shadow entry stands: it needs a
    /// password hash that is neither missing, due for a change, empty nor locked.
    pub fn lookup(uid: u32, username: &str, shadow: Option<ShadowEntry>) -> (r: Result<
        Account,
        KeyringError,
    >)
        ensures
            match r {
                Ok(account) => account.spec_uid() == uid && shadow_binding(
                    uid,
                    username.spec_bytes(),
                    shadow,
                ) == Ok::<Seq<u8>, KeyringError>(account.binding_bytes()),
                Err(e) => shadow_binding(uid, username.spec_bytes(), shadow) == Err::<
                    Seq<u8>,
                    KeyringError,
                >(e),
            },
    {
        match shadow {
            None => Err(KeyringError::NoShadowRecord),
            Some(entry) => {
                match entry.password {
                    None => Err(KeyringError::PasswordChangeRequired),
                    Some(hash) => {
                        if entry.last_change == 0 {
                            return Err(KeyringError::PasswordChangeRequired);
                        }
                        if hash.len() == 0 || hash[0] == 33 || hash[0] == 42 {
                            return Err(KeyringError::PasswordEmptyOrLocked);
                        }
                        Ok(Account::bound_to(uid, username, hash.as_slice()))
                    },
                }
            },
        }
    }

    /// The account with the given user id, name and password hash.
    pub fn bound_to(uid: u32, username: &str, hash: &[u8]) -> (account: Account)
        ensures
            account.spec_uid() == uid,
            account.binding_bytes() == sha256_of(
                binding_message(uid, username.spec_bytes(), hash@),
            ),
    {
        let mut message: Vec<u8> = binding_prefix_bytes();
        let id: Vec<u8> = u32_to_le_bytes(uid);
        message.extend_from_slice(id.as_slice());
        message.extend_from_slice(username.as_bytes());
        message.push(0);
        message.extend_from_slice(hash);
        assert(message@ =~= binding_message(uid, username.spec_bytes(), hash@));
        Account { uid, binding: sha256(message.as_slice()) }
    }

    /// The account's user id.
    pub fn user_id(&self) -> (uid: u32)
        ensures
            uid == self.spec_uid(),
    {
        self.uid
    }

    /// Whether two accounts have the same binding.
    pub fn same_binding(&self, other: &Account) -> (r: bool)
        ensures
            r == (self.binding_bytes() == other.binding_bytes()),
    {
        let mut i: usize = 0;
        while i < 32
            invariant
                i <= 32,
                forall|j: int| 0 <= j < i ==> self.binding@[j] == other.binding@[j],
            decreases 32 - i,
        {
            if self.binding[i] != other.binding[i] {
                return false;
            }
            i = i + 1;
        }
        assert(self.binding@ =~= other.binding@);
        true
    }
}

// Passwords

/// A password that fits a record and survives as a C string.
pub open spec fn valid_password(password: Seq<u8>) -> bool {
    0 < password.len() <= MAX_PASSWORD && !password.contains(0)
}

/// A password of 1 to 4096 bytes is valid exactly if none of its bytes is zero; one of no
/// bytes, or of more, never is. What a valid one starts with is valid too.
pub proof fn valid_passwords_are_short_and_whole(password: Seq<u8>, n: int)
    ensures
        valid_password(password) ==> 1 <= password.len() <= 4096,
        1 <= password.len() <= 4096 ==> (valid_password(password) <==> forall|i: int|
            0 <= i < password.len() ==> #[trigger] password[i] != 0),
        valid_password(password) && 1 <= n <= password.len() ==> valid_password(
            password.subrange(0, n),
        ),
        !valid_password(password.push(0)),
{
    if !password.contains(0) {
        assert forall|i: int| 0 <= i < password.len() implies #[trigger] password[i] != 0 by {
            assert(password.contains(password[i]));
        }
    }
    if valid_password(password) && 1 <= n <= password.len() {
        assert(!password.subrange(0, n).contains(0)) by {
            if password.subrange(0, n).contains(0) {
                let i = choose|i: int| 0 <= i < n && password.subrange(0, n)[i] == 0;
                assert(password[i] == 0);
            }
        }
    }
    assert(password.push(0)[password.len() as int] == 0);
    assert(password.push(0).contains(0));
}

/// Accepts a password of 1 to `MAX_PASSWORD` bytes without a zero byte.
pub fn validate_password(password: &[u8]) -> (r: Result<(), KeyringError>)
    ensures
        r == (if valid_password(password@) {
            Ok::<(), KeyringError>(())
        } else {
            Err(KeyringError::InvalidPassword)
        }),
{
    if password.len() == 0 || password.len() > MAX_PASSWORD || find_zero(password).is_some() {
        Err(KeyringError::InvalidPassword)
    } else {
        Ok(())
    }
}

// Records

/// The bytes that every record starts with.
pub open spec fn magic() -> Seq<u8> {
    seq![71u8, 90u8, 75u8, 49u8]
}

/// What a record holds.
#[verifier::ext_equal]
pub struct RecordModel {
    pub public: Seq<u8>,
    pub private: Seq<u8>,
    pub nonce: Seq<u8>,
    pub ciphertext: Seq<u8>,
    pub tag: Seq<u8>,
}

/// The parts of a record, borrowed from its bytes.
pub struct Record<'a> {
    pub public: &'a [u8],
    pub private: &'a [u8],
    pub nonce: &'a [u8],
    pub ciphertext: &'a [u8],
    pub tag: &'a [u8],
}

impl<'a> View for Record<'a> {
    type V = RecordModel;

    open spec fn view(&self) -> RecordModel {
        RecordModel {
            public: self.public@,
            private: self.private@,
            nonce: self.nonce@,
            ciphertext: self.ciphertext@,
            tag: self.tag@,
        }
    }
}

impl RecordModel {
    /// A record within the limits of the format.
    pub open spec fn fits(self) -> bool {
        &&& self.public.len() <= MAX_SEALED
        &&& self.private.len() <= MAX_SEALED
        &&& self.nonce.len() == 12
        &&& self.ciphertext.len() > 0
        &&& self.tag.len() == 16
        &&& self.bytes().len() <= MAX_BLOB
    }

    /// The record as it is stored.
    pub open spec fn bytes(self) -> Seq<u8> {
        magic() + spec_u32_to_le_bytes(self.public.len() as u32) + spec_u32_to_le_bytes(
            self.private.len() as u32,
        ) + self.public + self.private + self.nonce + self.ciphertext + self.tag
    }
}

/// What stored bytes hold, or the first rule of the format that they break.
pub open spec fn parsed_record(blob: Seq<u8>) -> Result<RecordModel, KeyringError> {
    if blob.len() < 12 || blob.len() > MAX_BLOB || blob.subrange(0, 4) != magic() {
        Err(KeyringError::InvalidRecord)
    } else {
        let public_len = spec_u32_from_le_bytes(blob.subrange(4, 8)) as int;
        let private_len = spec_u32_from_le_bytes(blob.subrange(8, 12)) as int;
        let end = 12 + public_len + private_len;
        if public_len > MAX_SEALED || private_len > MAX_SEALED {
            Err(KeyringError::InvalidSealedKeyLength)
        } else if blob.len() <= end + 28 {
            Err(KeyringError::TruncatedRecord)
        } else {
            Ok(
                RecordModel {
                    public: blob.subrange(12, 12 + public_len),
                    private: blob.subrange(12 + public_len, end),
                    nonce: blob.subrange(end, end + 12),
                    ciphertext: blob.subrange(end + 12, blob.len() - 16),
                    tag: blob.subrange(blob.len() - 16, blob.len() as int),
                },
            )
        }
    }
}

/// A stored record starts with "GZK1" and the lengths of the two halves of the sealed key,
/// lowest byte first. The public half follows, the private half, the nonce, the ciphertext
/// and, in the last 16 bytes, the tag.
pub proof fn records_have_their_layout(record: RecordModel)
    requires
        record.fits(),
    ensures
        ({
            let blob = record.bytes();
            let p = 12 + record.public.len();
            let q = p + record.private.len();
            &&& blob[0] as int == 'G' as int && blob[1] as int == 'Z' as int && blob[2] as int
                == 'K' as int && blob[3] as int == '1' as int
            &&& blob.subrange(4, 8) == spec_u32_to_le_bytes(record.public.len() as u32)
            &&& blob.subrange(8, 12) == spec_u32_to_le_bytes(record.private.len() as u32)
            &&& blob.subrange(12, p as int) == record.public
            &&& blob.subrange(p as int, q as int) == record.private
            &&& blob.subrange(q as int, q + 12int) == record.nonce
            &&& blob.subrange(q + 12int, blob.len() - 16) == record.ciphertext
            &&& blob.subrange(blob.len() - 16, blob.len() as int) == record.tag
        }),
{
    lemma_auto_spec_u32_to_from_le_bytes();
    let blob = record.bytes();
    let p = 12 + record.public.len();
    let q = p + record.private.len();
    assert(blob.subrange(4, 8) =~= spec_u32_to_le_bytes(record.public.len() as u32));
    assert(blob.subrange(8, 12) =~= spec_u32_to_le_bytes(record.private.len() as u32));
    assert(blob.subrange(12, p as int) =~= record.public);
    assert(blob.subrange(p as int, q as int) =~= record.private);
    assert(blob.subrange(q as int, q + 12int) =~= record.nonce);
    assert(blob.subrange(q + 12int, blob.len() - 16) =~= record.ciphertext);
    assert(blob.subrange(blob.len() - 16, blob.len() as int) =~= record.tag);
}

/// Reading what a record was stored as gives the record back.
pub proof fn stored_records_parse(record: RecordModel)
    requires
        record.fits(),
    ensures
        parsed_record(record.bytes()) == Ok::<RecordModel, KeyringError>(record),
{
    lemma_auto_spec_u32_to_from_le_bytes();
    let blob = record.bytes();
    let (p, q) = (record.public.len() as int, record.private.len() as int);
    assert(blob.subrange(0, 4) =~= magic());
    assert(blob.subrange(4, 8) =~= spec_u32_to_le_bytes(p as u32));
    assert(blob.subrange(8, 12) =~= spec_u32_to_le_bytes(q as u32));
    assert(blob.subrange(12, 12 + p) =~= record.public);
    assert(blob.subrange(12 + p, 12 + p + q) =~= record.private);
    assert(blob.subrange(12 + p + q, 24 + p + q) =~= record.nonce);
    assert(blob.subrange(24 + p + q, blob.len() - 16) =~= record.ciphertext);
    assert(blob.subrange(blob.len() - 16, blob.len() as int) =~= record.tag);
}

/// Stored bytes that parse are exactly what their record is stored as.
pub proof fn parsed_records_are_stored(blob: Seq<u8>)
    requires
        parsed_record(blob) is Ok,
    ensures
        parsed_record(blob)->Ok_0.fits(),
        parsed_record(blob)->Ok_0.bytes() == blob,
{
    lemma_auto_spec_u32_to_from_le_bytes();
    let record = parsed_record(blob)->Ok_0;
    assert(spec_u32_to_le_bytes(record.public.len() as u32) == blob.subrange(4, 8));
    assert(spec_u32_to_le_bytes(record.private.len() as u32) == blob.subrange(8, 12));
    assert(record.bytes() =~= blob);
}

/// A record that lost bytes at its end never reads as what it was, and one that lost its
/// ciphertext is refused as it is read.
pub proof fn truncated_records_differ(record: RecordModel, end: int)
    requires
        record.fits(),
        0 <= end < record.bytes().len(),
    ensures
        parsed_record(record.bytes().subrange(0, end)) != Ok::<RecordModel, KeyringError>(record),
        end <= record.bytes().len() - record.ciphertext.len() ==> parsed_record(
            record.bytes().subrange(0, end),
        ) is Err,
{
    lemma_auto_spec_u32_to_from_le_bytes();
    let cut = record.bytes().subrange(0, end);
    if parsed_record(cut) is Ok {
        parsed_records_are_stored(cut);
        assert(cut.subrange(4, 8) =~= spec_u32_to_le_bytes(record.public.len() as u32));
        assert(cut.subrange(8, 12) =~= spec_u32_to_le_bytes(record.private.len() as u32));
    }
}

/// Reads stored bytes as a record.
pub fn parse_record<'a>(blob: &'a [u8]) -> (r: Result<Record<'a>, KeyringError>)
    ensures
        match r {
            Ok(record) => parsed_record(blob@) == Ok::<RecordModel, KeyringError>(record@),
            Err(e) => parsed_record(blob@) == Err::<RecordModel, KeyringError>(e),
        },
{
    if blob.len() < 12 || blob.len() > MAX_BLOB {
        return Err(KeyringError::InvalidRecord);
    }
    if blob[0] != 71 || blob[1] != 90 || blob[2] != 75 || blob[3] != 49 {
        assert(blob@.subrange(0, 4) != magic()) by {
            let head = blob@.subrange(0, 4);
            assert(head[0] == blob@[0] && head[1] == blob@[1] && head[2] == blob@[2] && head[3]
                == blob@[3]);
        }
        return Err(KeyringError::InvalidRecord);
    }
    assert(blob@.subrange(0, 4) =~= magic());
    let public_len: u32 = u32_from_le_bytes(slice_subrange(blob, 4, 8));
    let private_len: u32 = u32_from_le_bytes(slice_subrange(blob, 8, 12));
    if public_len > 4096 || private_len > 4096 {
        return Err(KeyringError::InvalidSealedKeyLength);
    }
    let public_end: usize = 12 + public_len as usize;
    let end: usize = public_end + private_len as usize;
    if blob.len() <= end + 28 {
        return Err(KeyringError::TruncatedRecord);
    }
    let tag_at: usize = blob.len() - 16;
    Ok(
        Record {
            public: slice_subrange(blob, 12, public_end),
            private: slice_subrange(blob, public_end, end),
            nonce: slice_subrange(blob, end, end + 12),
            ciphertext: slice_subrange(blob, end + 12, tag_at),
            tag: slice_subrange(blob, tag_at, blob.len()),
        },
    )
}

/// The record for a password under a key and a nonce.
pub open spec fn sealed_record(
    key: Seq<u8>,
    binding: Seq<u8>,
    password: Seq<u8>,
    public: Seq<u8>,
    private: Seq<u8>,
    nonce: Seq<u8>,
) -> RecordModel {
    let sealed = gcm_sealed(key, nonce, binding, password.push(0));
    RecordModel { public, private, nonce, ciphertext: sealed.0, tag: sealed.1 }
}

/// What a record releases under a key to the account with the given binding: the
/// password and its terminator, if the tag holds and the plaintext has that form.
pub open spec fn released(record: RecordModel, binding: Seq<u8>, key: Seq<u8>) -> Result<
    Seq<u8>,
    KeyringError,
> {
    match gcm_opened(key, record.nonce, binding, record.ciphertext, record.tag) {
        None => Err(KeyringError::CredentialUnavailable),
        Some(plain) => if plain.last() != 0 {
            Err(KeyringError::InvalidTerminator)
        } else if !valid_password(plain.drop_last()) {
            Err(KeyringError::InvalidPassword)
        } else {
            Ok(plain)
        },
    }
}

/// What is released is what the cipher opened, all of it, and is a valid password followed by
/// one zero byte. Whatever the cipher opened of that form is released, and what it did not
/// open is not.
pub proof fn only_passwords_are_released(
    record: RecordModel,
    binding: Seq<u8>,
    key: Seq<u8>,
    password: Seq<u8>,
)
    ensures
        released(record, binding, key) matches Ok(plain) ==> {
            &&& gcm_opened(key, record.nonce, binding, record.ciphertext, record.tag) == Some(plain)
            &&& plain.last() == 0
            &&& valid_password(plain.drop_last())
        },
        valid_password(password) && gcm_opened(
            key,
            record.nonce,
            binding,
            record.ciphertext,
            record.tag,
        ) == Some(password.push(0)) ==> released(record, binding, key) == Ok::<
            Seq<u8>,
            KeyringError,
        >(password.push(0)),
        gcm_opened(key, record.nonce, binding, record.ciphertext, record.tag) is None
            <==> released(record, binding, key) == Err::<Seq<u8>, KeyringError>(
            KeyringError::CredentialUnavailable,
        ),
{
    assert(password.push(0).drop_last() =~= password);
}

/// A record holds the nonce and the halves of the sealed key that it was made with, and what
/// the cipher makes of the password and a zero byte under them.
pub proof fn sealed_records_hold_their_parts(
    key: Seq<u8>,
    binding: Seq<u8>,
    password: Seq<u8>,
    public: Seq<u8>,
    private: Seq<u8>,
    nonce: Seq<u8>,
)
    ensures
        ({
            let record = sealed_record(key, binding, password, public, private, nonce);
            &&& record.public == public
            &&& record.private == private
            &&& record.nonce == nonce
            &&& gcm_sealed(key, nonce, binding, password + seq![0u8]) == (
                record.ciphertext,
                record.tag,
            )
        }),
{
    assert(password + seq![0u8] =~= password.push(0));
}

/// `plain` is what was sealed into a record, and all that can have been.
pub open spec fn authentic(
    record: RecordModel,
    binding: Seq<u8>,
    key: Seq<u8>,
    plain: Seq<u8>,
) -> bool {
    &&& gcm_sealed(key, record.nonce, binding, plain) == (record.ciphertext, record.tag)
    &&& plain.len() == record.ciphertext.len()
    &&& only_plaintext(key, record.nonce, record.ciphertext, plain)
}

/// One key, nonce and ciphertext admit one tag per account: of two records that differ in
/// their tags alone, no more than one releases anything to the account.
pub proof fn a_changed_tag_is_refused(
    record: RecordModel,
    tampered: RecordModel,
    binding: Seq<u8>,
    key: Seq<u8>,
    plain: Seq<u8>,
    other: Seq<u8>,
)
    requires
        binding.len() <= 0x1fff_ffff_ffff_ffff,
        authentic(record, binding, key, plain),
        authentic(tampered, binding, key, other),
        tampered.nonce == record.nonce,
        tampered.ciphertext == record.ciphertext,
    ensures
        tampered.tag == record.tag,
        other == plain,
{
    let sealed = gcm_sealed(key, record.nonce, binding, other);
    assert(sealed.0 == record.ciphertext);
    assert(other == plain);
}

/// A record that opens for two different accounts, or under two different keys, takes a
/// collision: of the digest, or of the cipher, which then seals two plaintexts to one
/// ciphertext and tag under different keys or bindings. The names are C strings.
pub proof fn another_account_or_key_takes_a_collision(
    record: RecordModel,
    account1: (u32, Seq<u8>, Seq<u8>),
    account2: (u32, Seq<u8>, Seq<u8>),
    key1: Seq<u8>,
    key2: Seq<u8>,
    plain1: Seq<u8>,
    plain2: Seq<u8>,
)
    requires
        !account1.1.contains(0),
        !account2.1.contains(0),
        account1 != account2 || key1 != key2,
        authentic(
            record,
            sha256_of(binding_message(account1.0, account1.1, account1.2)),
            key1,
            plain1,
        ),
        authentic(
            record,
            sha256_of(binding_message(account2.0, account2.1, account2.2)),
            key2,
            plain2,
        ),
    ensures
        ({
            let message1 = binding_message(account1.0, account1.1, account1.2);
            let message2 = binding_message(account2.0, account2.1, account2.2);
            let (binding1, binding2) = (sha256_of(message1), sha256_of(message2));
            ||| message1 != message2 && binding1 == binding2
            ||| (key1, binding1) != (key2, binding2) && gcm_sealed(
                key1,
                record.nonce,
                binding1,
                plain1,
            ) == gcm_sealed(key2, record.nonce, binding2, plain2)
        }),
{
    let message1 = binding_message(account1.0, account1.1, account1.2);
    let message2 = binding_message(account2.0, account2.1, account2.2);
    if message1 == message2 {
        binding_messages_are_distinct(
            account1.0,
            account1.1,
            account1.2,
            account2.0,
            account2.1,
            account2.2,
        );
    }
}

/// Seals a password for an account under a key and a nonce. The record gives the
/// password back to the same account under the same key.
pub fn encrypt_with_nonce(
    key: &[u8; 32],
    account: &Account,
    password: &[u8],
    public: &[u8],
    private: &[u8],
    nonce: &[u8; 12],
) -> (r: Result<Vec<u8>, KeyringError>)
    ensures
        !valid_password(password@) ==> r == Err::<Vec<u8>, KeyringError>(
            KeyringError::InvalidPassword,
        ),
        valid_password(password@) && (public@.len() > MAX_SEALED || private@.len() > MAX_SEALED)
            ==> r == Err::<Vec<u8>, KeyringError>(KeyringError::InvalidSealedKey),
        valid_password(password@) && public@.len() <= MAX_SEALED && private@.len() <= MAX_SEALED
            ==> r is Ok,
        r matches Ok(blob) ==> {
            let record = sealed_record(
                key@,
                account.binding_bytes(),
                password@,
                public@,
                private@,
                nonce@,
            );
            &&& record.fits()
            &&& blob@ == record.bytes()
            &&& parsed_record(blob@) == Ok::<RecordModel, KeyringError>(record)
            &&& released(record, account.binding_bytes(), key@) == Ok::<Seq<u8>, KeyringError>(
                password@.push(0),
            )
        },
{
    match validate_password(password) {
        Err(e) => {
            return Err(e);
        },
        Ok(_) => {},
    }
    if public.len() > MAX_SEALED || private.len() > MAX_SEALED {
        return Err(KeyringError::InvalidSealedKey);
    }
    let mut plain: Vec<u8> = Vec::with_capacity(password.len() + 17);
    plain.extend_from_slice(password);
    plain.push(0);
    assert(plain@ =~= password@.push(0));
    let mut secret: Secret = wiping(plain);
    match gcm_seal(key, nonce.as_slice(), account.binding.as_slice(), &mut secret) {
        Err(_) => Err(KeyringError::EncryptionFailed),
        Ok(tag) => {
            let mut blob: Vec<u8> = vec![71u8, 90u8, 75u8, 49u8];
            let public_len: Vec<u8> = u32_to_le_bytes(public.len() as u32);
            let private_len: Vec<u8> = u32_to_le_bytes(private.len() as u32);
            blob.extend_from_slice(public_len.as_slice());
            blob.extend_from_slice(private_len.as_slice());
            blob.extend_from_slice(public);
            blob.extend_from_slice(private);
            blob.extend_from_slice(nonce.as_slice());
            blob.extend_from_slice(reveal_bytes(&secret));
            blob.extend_from_slice(tag.as_slice());
            proof {
                let record = sealed_record(
                    key@,
                    account.binding_bytes(),
                    password@,
                    public@,
                    private@,
                    nonce@,
                );
                assert(blob@ =~= record.bytes());
                stored_records_parse(record);
                assert(password@.push(0).drop_last() =~= password@);
            }
            Ok(blob)
        },
    }
}

/// The random source can have given these bytes.
pub closed spec fn drawn<const N: usize>(bytes: [u8; N]) -> bool {
    call_ensures(random_array::<N>, (), Ok(bytes))
}

/// The random source can have failed to give this many bytes.
pub closed spec fn draw_failed<const N: usize>() -> bool {
    exists|e: getrandom::Error| #[trigger] call_ensures(random_array::<N>, (), Err(e))
}

/// Draws bytes from the random source.
fn draw<const N: usize>() -> (r: Option<[u8; N]>)
    ensures
        match r {
            Some(bytes) => drawn(bytes),
            None => draw_failed::<N>(),
        },
{
    match random_array::<N>() {
        Err(e) => {
            assert(call_ensures(random_array::<N>, (), Err(e)));
            None
        },
        Ok(bytes) => Some(bytes),
    }
}

/// Seals a password for an account under a key and a nonce that is drawn each time.
pub fn encrypt(
    key: &[u8; 32],
    account: &Account,
    password: &[u8],
    public: &[u8],
    private: &[u8],
) -> (r: Result<Vec<u8>, KeyringError>)
    ensures
        !valid_password(password@) ==> r == Err::<Vec<u8>, KeyringError>(
            KeyringError::InvalidPassword,
        ),
        valid_password(password@) && (public@.len() > MAX_SEALED || private@.len() > MAX_SEALED)
            ==> r == Err::<Vec<u8>, KeyringError>(KeyringError::InvalidSealedKey),
        valid_password(password@) && public@.len() <= MAX_SEALED && private@.len() <= MAX_SEALED
            ==> r is Ok || (r == Err::<Vec<u8>, KeyringError>(KeyringError::RandomUnavailable)
            && draw_failed::<12>()),
        r matches Ok(blob) ==> exists|nonce: [u8; 12]|
            drawn(nonce) && #[trigger] is_record_under(
                blob@,
                key@,
                account.binding_bytes(),
                password@,
                public@,
                private@,
                nonce@,
            ) && released(
                sealed_record(
                    key@,
                    account.binding_bytes(),
                    password@,
                    public@,
                    private@,
                    nonce@,
                ),
                account.binding_bytes(),
                key@,
            ) == Ok::<Seq<u8>, KeyringError>(password@.push(0)),
{
    match validate_password(password) {
        Err(e) => {
            return Err(e);
        },
        Ok(_) => {},
    }
    if public.len() > MAX_SEALED || private.len() > MAX_SEALED {
        return Err(KeyringError::InvalidSealedKey);
    }
    match draw::<12>() {
        None => Err(KeyringError::RandomUnavailable),
        Some(nonce) => {
            let r: Result<Vec<u8>, KeyringError> = encrypt_with_nonce(
                key,
                account,
                password,
                public,
                private,
                &nonce,
            );
            assert(r matches Ok(blob) && is_record_under(
                blob@,
                key@,
                account.binding_bytes(),
                password@,
                public@,
                private@,
                nonce@,
            ));
            r
        },
    }
}

/// `blob` is the stored record for a password under a key and a nonce.
pub open spec fn is_record_under(
    blob: Seq<u8>,
    key: Seq<u8>,
    binding: Seq<u8>,
    password: Seq<u8>,
    public: Seq<u8>,
    private: Seq<u8>,
    nonce: Seq<u8>,
) -> bool {
    let record = sealed_record(key, binding, password, public, private, nonce);
    &&& blob == record.bytes()
    &&& record.fits()
    &&& parsed_record(blob) == Ok::<RecordModel, KeyringError>(record)
}

/// Releases the password in a record under its key.
pub fn release(record: &Record, account: &Account, key: &[u8; 32]) -> (r: Result<
    Secret,
    KeyringError,
>)
    requires
        record@.fits(),
    ensures
        match r {
            Ok(secret) => released(record@, account.binding_bytes(), key@) == Ok::<
                Seq<u8>,
                KeyringError,
            >(secret_bytes(secret)) && authentic(
                record@,
                account.binding_bytes(),
                key@,
                secret_bytes(secret),
            ),
            Err(e) => released(record@, account.binding_bytes(), key@) == Err::<
                Seq<u8>,
                KeyringError,
            >(e),
        },
{
    let mut password: Secret = wiping(slice_to_vec(record.ciphertext));
    match gcm_open(key, record.nonce, account.binding.as_slice(), record.tag, &mut password) {
        Err(_) => Err(KeyringError::CredentialUnavailable),
        Ok(_) => {
            let plain: &[u8] = reveal_bytes(&password);
            let last: usize = plain.len() - 1;
            if plain[last] != 0 {
                return Err(KeyringError::InvalidTerminator);
            }
            assert(plain@.subrange(0, last as int) =~= plain@.drop_last());
            match validate_password(slice_subrange(plain, 0, last)) {
                Err(e) => Err(e),
                Ok(_) => Ok(password),
            }
        },
    }
}

/// What decrypting stored bytes gives once the sealed key was unsealed, or failed to be.
pub open spec fn decrypted(
    record: RecordModel,
    binding: Seq<u8>,
    unsealed: Result<[u8; 32], KeyringError>,
) -> Result<Seq<u8>, KeyringError> {
    match unsealed {
        Err(e) => Err(e),
        Ok(key) => released(record, binding, key@),
    }
}

/// The view of a released secret.
pub open spec fn released_view(r: Result<Secret, KeyringError>) -> Result<Seq<u8>, KeyringError> {
    match r {
        Ok(secret) => Ok(secret_bytes(secret)),
        Err(e) => Err(e),
    }
}

/// The two halves of the sealed key are those of the record in stored bytes.
pub open spec fn halves_of(blob: Seq<u8>, public: Seq<u8>, private: Seq<u8>) -> bool {
    parsed_record(blob) matches Ok(record) && public == record.public && private == record.private
}

/// Releases the password in stored bytes to an account. `unseal` turns the two halves of
/// the sealed key into the key; it is only called with the halves of a record, so bytes that
/// are no record are refused without it.
pub fn decrypt_with<F>(blob: &[u8], account: &Account, unseal: F) -> (r: Result<
    Secret,
    KeyringError,
>) where F: FnOnce(&[u8], &[u8]) -> Result<[u8; 32], KeyringError>
    requires
        forall|public: &[u8], private: &[u8]|
            halves_of(blob@, public@, private@) ==> #[trigger] call_requires(
                unseal,
                (public, private),
            ),
    ensures
        match parsed_record(blob@) {
            Err(e) => r == Err::<Secret, KeyringError>(e),
            Ok(record) => exists|
                public: &[u8],
                private: &[u8],
                unsealed: Result<[u8; 32], KeyringError>,
            |
                {
                    &&& public@ == record.public
                    &&& private@ == record.private
                    &&& #[trigger] call_ensures(unseal, (public, private), unsealed)
                    &&& released_view(r) == decrypted(record, account.binding_bytes(), unsealed)
                    &&& r matches Ok(secret) ==> (unsealed matches Ok(key) && authentic(
                        record,
                        account.binding_bytes(),
                        key@,
                        secret_bytes(secret),
                    ))
                },
        },
{
    let record: Record = match parse_record(blob) {
        Err(e) => {
            return Err(e);
        },
        Ok(record) => record,
    };
    proof {
        parsed_records_are_stored(blob@);
    }
    let unsealed: Result<[u8; 32], KeyringError> = unseal(record.public, record.private);
    let ghost outcome = unsealed;
    match unsealed {
        Err(e) => {
            assert(call_ensures(unseal, (record.public, record.private), outcome));
            Err(e)
        },
        Ok(mut key) => {
            let r: Result<Secret, KeyringError> = release(&record, account, &key);
            wipe(&mut key);
            assert(call_ensures(unseal, (record.public, record.private), outcome));
            r
        },
    }
}

/// A password and the two halves of a sealed key that fit a record.
pub open spec fn sealable(password: Seq<u8>, public: Seq<u8>, private: Seq<u8>) -> bool {
    valid_password(password) && public.len() <= MAX_SEALED && private.len() <= MAX_SEALED
}

/// `r` is what sealing a password and opening the record again lead to. An invalid password
/// or sealed key is refused first; without a nonce nothing is sealed; then the record has to
/// open with what `unseal` makes of the two halves of the sealed key.
pub open spec fn prepared<F>(
    key: Seq<u8>,
    nonce: Option<[u8; 12]>,
    binding: Seq<u8>,
    password: Seq<u8>,
    public: Seq<u8>,
    private: Seq<u8>,
    unseal: F,
    r: Result<Vec<u8>, KeyringError>,
) -> bool where F: FnOnce(&[u8], &[u8]) -> Result<[u8; 32], KeyringError> {
    if !valid_password(password) {
        r == Err::<Vec<u8>, KeyringError>(KeyringError::InvalidPassword)
    } else if !sealable(password, public, private) {
        r == Err::<Vec<u8>, KeyringError>(KeyringError::InvalidSealedKey)
    } else {
        match nonce {
            None => r == Err::<Vec<u8>, KeyringError>(KeyringError::RandomUnavailable),
            Some(nonce) => {
                let record = sealed_record(key, binding, password, public, private, nonce@);
                exists|half: &[u8], other: &[u8], unsealed: Result<[u8; 32], KeyringError>|
                    {
                        &&& half@ == public
                        &&& other@ == private
                        &&& #[trigger] call_ensures(unseal, (half, other), unsealed)
                        &&& match decrypted(record, binding, unsealed) {
                            Err(e) => r == Err::<Vec<u8>, KeyringError>(e),
                            Ok(_) => r matches Ok(blob) && blob@ == record.bytes(),
                        }
                    }
            },
        }
    }
}

/// A record that was prepared is that of a valid password and of halves that fit, sealed
/// under the nonce that was drawn, and it opened again with what was unsealed from the halves.
pub proof fn prepared_records_open_again<F>(
    key: Seq<u8>,
    nonce: Option<[u8; 12]>,
    binding: Seq<u8>,
    password: Seq<u8>,
    public: Seq<u8>,
    private: Seq<u8>,
    unseal: F,
    blob: Vec<u8>,
) where F: FnOnce(&[u8], &[u8]) -> Result<[u8; 32], KeyringError>
    requires
        prepared(key, nonce, binding, password, public, private, unseal, Ok(blob)),
    ensures
        valid_password(password),
        public.len() <= 4096,
        private.len() <= 4096,
        nonce is Some,
        blob@ == sealed_record(key, binding, password, public, private, nonce->0@).bytes(),
        exists|half: &[u8], other: &[u8], back: Result<[u8; 32], KeyringError>|
            {
                &&& half@ == public
                &&& other@ == private
                &&& #[trigger] call_ensures(unseal, (half, other), back)
                &&& back matches Ok(opened) && released(
                    sealed_record(key, binding, password, public, private, nonce->0@),
                    binding,
                    opened@,
                ) is Ok
            },
{
}

/// What cannot be sealed is refused for the reason that holds: the password, the halves of
/// the sealed key, or a nonce that could not be drawn.
pub proof fn what_cannot_be_sealed_is_refused<F>(
    key: Seq<u8>,
    nonce: Option<[u8; 12]>,
    binding: Seq<u8>,
    password: Seq<u8>,
    public: Seq<u8>,
    private: Seq<u8>,
    unseal: F,
    r: Result<Vec<u8>, KeyringError>,
) where F: FnOnce(&[u8], &[u8]) -> Result<[u8; 32], KeyringError>
    requires
        prepared(key, nonce, binding, password, public, private, unseal, r),
    ensures
        !valid_password(password) ==> r == Err::<Vec<u8>, KeyringError>(
            KeyringError::InvalidPassword,
        ),
        valid_password(password) && (public.len() > 4096 || private.len() > 4096) ==> r == Err::<
            Vec<u8>,
            KeyringError,
        >(KeyringError::InvalidSealedKey),
        valid_password(password) && public.len() <= 4096 && private.len() <= 4096 && nonce is None
            ==> r == Err::<Vec<u8>, KeyringError>(KeyringError::RandomUnavailable),
{
}

/// Seals a password for an account and makes sure that the record can be opened again
/// before it replaces a working one: `unseal` has to give the key back. `nonce` is what the
/// random source gave.
pub fn prepare_record<F>(
    key: &[u8; 32],
    nonce: Option<[u8; 12]>,
    account: &Account,
    password: &[u8],
    public: &[u8],
    private: &[u8],
    unseal: F,
) -> (r: Result<Vec<u8>, KeyringError>) where
    F: FnOnce(&[u8], &[u8]) -> Result<[u8; 32], KeyringError>,

    requires
        nonce is Some && sealable(password@, public@, private@) ==> forall|
            half: &[u8],
            other: &[u8],
        |
            half@ == public@ && other@ == private@ ==> #[trigger] call_requires(
                unseal,
                (half, other),
            ),
    ensures
        prepared(key@, nonce, account.binding_bytes(), password@, public@, private@, unseal, r),
{
    match validate_password(password) {
        Err(e) => {
            return Err(e);
        },
        Ok(_) => {},
    }
    if public.len() > MAX_SEALED || private.len() > MAX_SEALED {
        return Err(KeyringError::InvalidSealedKey);
    }
    match nonce {
        None => Err(KeyringError::RandomUnavailable),
        Some(nonce) => {
            match encrypt_with_nonce(key, account, password, public, private, &nonce) {
                Err(e) => Err(e),
                Ok(blob) => {
                    match decrypt_with(blob.as_slice(), account, unseal) {
                        Err(e) => Err(e),
                        Ok(_) => Ok(blob),
                    }
                },
            }
        },
    }
}

/// Takes what was unsealed as a key; it has to be 32 bytes long.
pub fn credential_key(bytes: &[u8]) -> (r: Result<[u8; 32], KeyringError>)
    ensures
        match r {
            Ok(key) => key@ == bytes@,
            Err(e) => bytes@.len() != 32 && e == KeyringError::InvalidKeyLength,
        },
{
    if bytes.len() != 32 {
        return Err(KeyringError::InvalidKeyLength);
    }
    let mut key: [u8; 32] = [0u8;32];
    let mut i: usize = 0;
    while i < 32
        invariant
            i <= 32,
            bytes@.len() == 32,
            forall|j: int| 0 <= j < i ==> key@[j] == bytes@[j],
        decreases 32 - i,
    {
        key[i] = bytes[i];
        i = i + 1;
    }
    assert(key@ =~= bytes@);
    Ok(key)
}

/// Refuses to store a credential that nothing would ever ask for.
pub fn ensure_unlock_enabled(enabled: bool) -> (r: Result<(), KeyringError>)
    ensures
        r == (if enabled {
            Ok::<(), KeyringError>(())
        } else {
            Err(KeyringError::UnlockDisabled)
        }),
{
    if enabled {
        Ok(())
    } else {
        Err(KeyringError::UnlockDisabled)
    }
}

/// Refuses access to the store to anybody but root.
pub fn ensure_root(euid: u32) -> (r: Result<(), KeyringError>)
    ensures
        r == (if euid == 0 {
            Ok::<(), KeyringError>(())
        } else {
            Err(KeyringError::AccessRequiresRoot)
        }),
{
    if euid == 0 {
        Ok(())
    } else {
        Err(KeyringError::AccessRequiresRoot)
    }
}

/// What may have changed the account while a credential was handled.
#[derive(Clone, Copy, PartialEq, Eq, Structural)]
pub enum Phase {
    Enrollment,
    Unlock,
}

/// Refuses a credential whose account changed while it was handled.
pub fn ensure_unchanged(before: &Account, after: &Account, phase: Phase) -> (r: Result<
    (),
    KeyringError,
>)
    ensures
        r == (if before.binding_bytes() == after.binding_bytes() {
            Ok::<(), KeyringError>(())
        } else if phase == Phase::Enrollment {
            Err(KeyringError::ChangedDuringEnrollment)
        } else {
            Err(KeyringError::ChangedDuringUnlock)
        }),
{
    if after.same_binding(before) {
        Ok(())
    } else if phase == Phase::Enrollment {
        Err(KeyringError::ChangedDuringEnrollment)
    } else {
        Err(KeyringError::ChangedDuringUnlock)
    }
}

// The store on disk

/// What the file system says of a directory entry, symbolic links not followed.
#[derive(Clone, Copy, PartialEq, Eq, Structural)]
pub struct NodeMeta {
    pub is_dir: bool,
    pub is_file: bool,
    pub uid: u32,
    pub mode: u32,
    pub links: u64,
}

/// A directory that nobody but its owner can write to.
pub open spec fn guarded_directory(meta: NodeMeta, owner: u32) -> bool {
    meta.is_dir && meta.uid == owner && meta.mode & 0o022 == 0
}

/// The verdict on a credential directory. `ancestors` describes the directory and those
/// above it, in that order, as far as they could be read; `mode` is the directory's own
/// mode, or why not everything could be read.
pub open spec fn directory_verdict(
    absolute: bool,
    ancestors: Seq<NodeMeta>,
    mode: Result<u32, String>,
    owner: u32,
) -> Result<(), KeyringError> {
    if !absolute {
        Err(KeyringError::RelativeDirectory)
    } else if exists|i: int|
        0 <= i < ancestors.len() && !guarded_directory(#[trigger] ancestors[i], owner) {
        Err(KeyringError::UnsafeDirectory)
    } else {
        match mode {
            Err(why) => Err(KeyringError::System(why)),
            Ok(m) => if m & 0o077 == 0 {
                Ok(())
            } else {
                Err(KeyringError::PublicDirectory)
            },
        }
    }
}

/// Accepts a credential directory only if it is absolute, it and every directory above it
/// belongs to `owner` and is writable by nobody else, and it is private itself.
pub fn check_directory(
    absolute: bool,
    ancestors: &[NodeMeta],
    mode: Result<u32, String>,
    owner: u32,
) -> (r: Result<(), KeyringError>)
    ensures
        r == directory_verdict(absolute, ancestors@, mode, owner),
{
    if !absolute {
        return Err(KeyringError::RelativeDirectory);
    }
    let mut i: usize = 0;
    while i < ancestors.len()
        invariant
            absolute,
            i <= ancestors.len(),
            forall|j: int| 0 <= j < i ==> guarded_directory(#[trigger] ancestors@[j], owner),
        decreases ancestors.len() - i,
    {
        let meta: NodeMeta = ancestors[i];
        if !(meta.is_dir && meta.uid == owner && meta.mode & 0o022 == 0) {
            assert(!guarded_directory(ancestors@[i as int], owner));
            return Err(KeyringError::UnsafeDirectory);
        }
        i = i + 1;
    }
    match mode {
        Err(why) => Err(KeyringError::System(why)),
        Ok(m) => {
            if m & 0o077 == 0 {
                Ok(())
            } else {
                Err(KeyringError::PublicDirectory)
            }
        },
    }
}

/// An accepted directory was read in full, is private, and it and everything above it is
/// guarded.
pub proof fn accepted_directories_are_guarded(
    absolute: bool,
    ancestors: Seq<NodeMeta>,
    mode: Result<u32, String>,
    owner: u32,
    i: int,
)
    requires
        directory_verdict(absolute, ancestors, mode, owner) is Ok,
        0 <= i < ancestors.len(),
    ensures
        absolute,
        guarded_directory(ancestors[i], owner),
        mode matches Ok(m) && m & 0o077 == 0,
{
}

/// A directory is accepted exactly if it is absolute, it and everything above it is guarded,
/// everything could be read, and it is private. A refusal tells the first of these that is
/// missing.
pub proof fn guarded_directories_are_accepted(
    absolute: bool,
    ancestors: Seq<NodeMeta>,
    mode: Result<u32, String>,
    owner: u32,
)
    ensures
        ({
            let guarded = forall|i: int|
                0 <= i < ancestors.len() ==> (#[trigger] ancestors[i]).is_dir && ancestors[i].uid
                    == owner && ancestors[i].mode & 0o022 == 0;
            let verdict = directory_verdict(absolute, ancestors, mode, owner);
            &&& verdict == Err::<(), KeyringError>(KeyringError::RelativeDirectory) <==> !absolute
            &&& absolute && !guarded <==> verdict == Err::<(), KeyringError>(
                KeyringError::UnsafeDirectory,
            )
            &&& absolute && guarded ==> (mode matches Err(why) ==> verdict == Err::<
                (),
                KeyringError,
            >(KeyringError::System(why)))
            &&& verdict is Ok <==> absolute && guarded && (mode matches Ok(m) && m & 0o077 == 0)
            &&& verdict == Err::<(), KeyringError>(KeyringError::PublicDirectory) <==> absolute
                && guarded && (mode matches Ok(m) && m & 0o077 != 0)
        }),
{
    if exists|i: int|
        0 <= i < ancestors.len() && !guarded_directory(#[trigger] ancestors[i], owner) {
        let i = choose|i: int|
            0 <= i < ancestors.len() && !guarded_directory(#[trigger] ancestors[i], owner);
        assert(!guarded_directory(ancestors[i], owner));
    }
}

/// Each user has a record file of their own in the directory. No file that a record is first
/// written to is one of those, and two of them differ unless both the user and the random
/// number are the same.
pub proof fn record_files_are_apart(dir: Seq<char>, uid: u32, other: u32, a: u64, b: u64)
    ensures
        record_path_text(dir, uid) == record_path_text(dir, other) ==> uid == other,
        temporary_path_text(dir, uid, a) != record_path_text(dir, other),
        temporary_path_text(dir, uid, a) == temporary_path_text(dir, uid, b) ==> a == b,
        starts(record_path_text(dir, uid), dir),
        starts(temporary_path_text(dir, uid, a), dir),
        dir.len() > 0 && dir.last() != '/' ==> record_path_text(dir, uid) == dir + "/"@
            + decimal_text(uid as nat) + ".keyring"@,
        dir.len() > 0 && dir.last() == '/' ==> record_path_text(dir, uid) == dir + decimal_text(
            uid as nat,
        ) + ".keyring"@,
{
    reveal_strlit(".");
    reveal_strlit("-");
    reveal_strlit(".tmp");
    reveal_strlit(".keyring");
    reveal_strlit("/");
    let from = if dir.len() == 0 || dir.last() == '/' {
        dir.len() as int
    } else {
        dir.len() as int + 1
    };
    let mine = record_path_text(dir, uid);
    let theirs = record_path_text(dir, other);
    lemma_written_without_space(uid as nat);
    lemma_written_without_space(other as nat);
    assert(mine.subrange(0, dir.len() as int) =~= dir);
    assert(mine.subrange(from, mine.len() - 8) =~= decimal_text(uid as nat));
    assert(theirs.subrange(from, theirs.len() - 8) =~= decimal_text(other as nat));
    if mine == theirs {
        written_numbers_differ(uid as nat, other as nat);
    }
    let first = temporary_path_text(dir, uid, a);
    let second = temporary_path_text(dir, uid, b);
    assert(first.subrange(0, dir.len() as int) =~= dir);
    assert(first[from] == '.' && theirs[from] == decimal_text(other as nat)[0]);
    let at = from + 2 + decimal_text(uid as nat).len();
    assert(first.subrange(at, first.len() - 4) =~= decimal_text(a as nat));
    assert(second.subrange(at, second.len() - 4) =~= decimal_text(b as nat));
    if first == second {
        written_numbers_differ(a as nat, b as nat);
    }
    if dir.len() > 0 && dir.last() != '/' {
        assert(mine =~= dir + "/"@ + decimal_text(uid as nat) + ".keyring"@);
    }
    if dir.len() > 0 && dir.last() == '/' {
        assert(mine =~= dir + decimal_text(uid as nat) + ".keyring"@);
    }
}

/// Accepts an opened record file: a regular file of `owner`, private, with one link.
pub fn check_record_file(meta: &NodeMeta, owner: u32) -> (r: Result<(), KeyringError>)
    ensures
        r == (if meta.is_file && meta.uid == owner && meta.mode & 0o077 == 0 && meta.links == 1 {
            Ok::<(), KeyringError>(())
        } else {
            Err(KeyringError::UnsafeRecord)
        }),
        !meta.is_file ==> r is Err,
        meta.uid != owner ==> r is Err,
        meta.mode & 0o077 != 0 ==> r is Err,
        meta.links != 1 ==> r is Err,
{
    if meta.is_file && meta.uid == owner && meta.mode & 0o077 == 0 && meta.links == 1 {
        Ok(())
    } else {
        Err(KeyringError::UnsafeRecord)
    }
}

/// Accepts the contents of a record file if they are no longer than `MAX_BLOB`.
pub fn check_record_size(blob: Vec<u8>) -> (r: Result<Vec<u8>, KeyringError>)
    ensures
        blob@.len() <= MAX_BLOB ==> r == Ok::<Vec<u8>, KeyringError>(blob),
        blob@.len() > MAX_BLOB ==> r == Err::<Vec<u8>, KeyringError>(KeyringError::RecordTooLarge),
{
    if blob.len() <= MAX_BLOB {
        Ok(blob)
    } else {
        Err(KeyringError::RecordTooLarge)
    }
}

/// `name` below the directory `dir`.
pub open spec fn path_below(dir: Seq<char>, name: Seq<char>) -> Seq<char> {
    if dir.len() == 0 || dir.last() == '/' {
        dir + name
    } else {
        dir + "/"@ + name
    }
}

/// The file in `dir` that holds the record of a user.
pub open spec fn record_path_text(dir: Seq<char>, uid: u32) -> Seq<char> {
    path_below(dir, decimal_text(uid as nat) + ".keyring"@)
}

/// The file in `dir` that a record is written to before it takes its place.
pub open spec fn temporary_path_text(dir: Seq<char>, uid: u32, random: u64) -> Seq<char> {
    path_below(
        dir,
        "."@ + decimal_text(uid as nat) + "-"@ + decimal_text(random as nat) + ".tmp"@,
    )
}

fn join_path(dir: &str, name: &str) -> (r: String)
    ensures
        r@ == path_below(dir@, name@),
{
    let mut path: String = dir.to_owned();
    let n: usize = dir.unicode_len();
    if n > 0 && dir.get_char(n - 1) != '/' {
        path.append("/");
    }
    path.append(name);
    path
}

/// The file in `dir` that holds the record of a user.
pub fn record_path(dir: &str, uid: u32) -> (r: String)
    ensures
        r@ == record_path_text(dir@, uid),
{
    let mut name: String = decimal(uid as u64);
    name.append(".keyring");
    join_path(dir, name.as_str())
}

/// The file in `dir` that a record is written to before it takes its place. `random`
/// keeps two writers apart.
pub fn temporary_path(dir: &str, account: &Account, random: u64) -> (r: String)
    ensures
        r@ == temporary_path_text(dir@, account.spec_uid(), random),
{
    let mut name: String = ".".to_owned();
    let uid: String = decimal(account.uid as u64);
    name.append(uid.as_str());
    name.append("-");
    let suffix: String = decimal(random);
    name.append(suffix.as_str());
    name.append(".tmp");
    join_path(dir, name.as_str())
}

// Storing, releasing and forgetting
//
// What the system says comes in by calls. Which calls may be made, and on what, is for the
// `requires` of each function to say: a call is only allowed where everything before it can
// have gone well.

/// What the account databases say of a user.
pub struct UserEntry {
    pub uid: Option<u32>,
    pub shadow: Option<ShadowEntry>,
}

/// What the file system says of a directory: whether its path is absolute, what it and the
/// directories above it are as far as they could be read, and its own mode, or why not
/// everything could be read.
pub struct DirectoryFacts {
    pub absolute: bool,
    pub ancestors: Vec<NodeMeta>,
    pub mode: Result<u32, String>,
}

impl DirectoryFacts {
    /// The verdict on the directory, for a store that belongs to root.
    pub open spec fn verdict(self) -> Result<(), KeyringError> {
        directory_verdict(self.absolute, self.ancestors@, self.mode, 0)
    }

    /// Accepts the directory for a store that belongs to root.
    pub fn check(self) -> (r: Result<(), KeyringError>)
        ensures
            r == self.verdict(),
    {
        check_directory(self.absolute, self.ancestors.as_slice(), self.mode, 0)
    }
}

/// The account of a user, by its user id and its binding.
pub open spec fn account_of(euid: u32, username: Seq<u8>, entry: UserEntry) -> Result<
    (u32, Seq<u8>),
    KeyringError,
> {
    match permitted_uid(euid, username, entry.uid) {
        Err(e) => Err(e),
        Ok(uid) => match shadow_binding(uid, username, entry.shadow) {
            Err(e) => Err(e),
            Ok(binding) => Ok((uid, binding)),
        },
    }
}

/// Takes a user's entry as an account.
pub fn account_from(euid: u32, username: &str, entry: UserEntry) -> (r: Result<
    Account,
    KeyringError,
>)
    ensures
        match r {
            Ok(account) => account_of(euid, username.spec_bytes(), entry) == Ok::<
                (u32, Seq<u8>),
                KeyringError,
            >((account.spec_uid(), account.binding_bytes())),
            Err(e) => account_of(euid, username.spec_bytes(), entry) == Err::<
                (u32, Seq<u8>),
                KeyringError,
            >(e),
        },
{
    match Account::uid(euid, username, entry.uid) {
        Err(e) => Err(e),
        Ok(uid) => Account::lookup(uid, username, entry.shadow),
    }
}

/// Looking a user up can have given this account.
pub open spec fn account_seen<L>(
    euid: u32,
    username: Seq<u8>,
    look: L,
    account: (u32, Seq<u8>),
) -> bool where L: FnOnce() -> UserEntry {
    caller_verdict(euid, username) is Ok && exists|entry: UserEntry| #[trigger]
        call_ensures(look, (), entry) && account_of(euid, username, entry) == Ok::<
            (u32, Seq<u8>),
            KeyringError,
        >(account)
}

/// Looking a user up can have given an account.
pub open spec fn account_known<L>(euid: u32, username: Seq<u8>, look: L) -> bool where
    L: FnOnce() -> UserEntry,
 {
    exists|account: (u32, Seq<u8>)| #[trigger] account_seen(euid, username, look, account)
}

/// A user can have been refused with this error: before the lookup, or by what it gave.
pub open spec fn account_refused<L>(
    euid: u32,
    username: Seq<u8>,
    look: L,
    error: KeyringError,
) -> bool where L: FnOnce() -> UserEntry {
    match caller_verdict(euid, username) {
        Err(e) => e == error,
        Ok(_) => exists|entry: UserEntry| #[trigger]
            call_ensures(look, (), entry) && account_of(euid, username, entry) == Err::<
                (u32, Seq<u8>),
                KeyringError,
            >(error),
    }
}

/// Looks a user up. Nothing is looked up for a caller other than root, or by a name that is
/// no C string.
pub fn look_up<L>(euid: u32, username: &str, look: L) -> (r: Result<Account, KeyringError>) where
    L: FnOnce() -> UserEntry,

    requires
        caller_verdict(euid, username.spec_bytes()) is Ok ==> call_requires(look, ()),
    ensures
        match r {
            Ok(account) => account_seen(
                euid,
                username.spec_bytes(),
                look,
                (account.spec_uid(), account.binding_bytes()),
            ),
            Err(e) => account_refused(euid, username.spec_bytes(), look, e),
        },
{
    match check_caller(euid, username) {
        Err(e) => {
            return Err(e);
        },
        Ok(_) => {},
    }
    let entry: UserEntry = look();
    assert(call_ensures(look, (), entry));
    account_from(euid, username, entry)
}

/// Looking a user up again can have given an account with this binding.
pub open spec fn account_unchanged<M>(username: Seq<u8>, look_again: M, binding: Seq<u8>) -> bool where
    M: FnOnce() -> UserEntry,
 {
    exists|after: (u32, Seq<u8>)| #[trigger]
        account_seen(0, username, look_again, after) && after.1 == binding
}

/// What a second look at the account makes of a plaintext that was opened.
pub open spec fn confirmed(
    plain: Seq<u8>,
    binding: Seq<u8>,
    again: Result<(u32, Seq<u8>), KeyringError>,
) -> Result<Seq<u8>, KeyringError> {
    match again {
        Err(e) => Err(e),
        Ok(account) => if account.1 == binding {
            Ok(plain)
        } else {
            Err(KeyringError::ChangedDuringUnlock)
        },
    }
}

/// What a stored record gives, once the account was looked up, the key was unsealed and the
/// account was looked up again.
pub open spec fn unlocked(
    record: RecordModel,
    account: (u32, Seq<u8>),
    unsealed: Result<[u8; 32], KeyringError>,
    again: Result<(u32, Seq<u8>), KeyringError>,
) -> Result<Seq<u8>, KeyringError> {
    match decrypted(record, account.1, unsealed) {
        Err(e) => Err(e),
        Ok(plain) => confirmed(plain, account.1, again),
    }
}

/// A password is only released to an account that was the same before and after.
pub proof fn released_accounts_are_unchanged(
    record: RecordModel,
    account: (u32, Seq<u8>),
    unsealed: Result<[u8; 32], KeyringError>,
    again: Result<(u32, Seq<u8>), KeyringError>,
)
    requires
        unlocked(record, account, unsealed, again) is Ok,
    ensures
        again matches Ok(after) && after.1 == account.1,
        unsealed matches Ok(key) && released(record, account.1, key@) == unlocked(
            record,
            account,
            unsealed,
            again,
        ),
{
}

/// What was opened is released if the account is still the same; if it changed meanwhile, or
/// cannot be found any more, nothing is.
pub proof fn unchanged_accounts_get_their_password(
    record: RecordModel,
    account: (u32, Seq<u8>),
    key: [u8; 32],
    again: Result<(u32, Seq<u8>), KeyringError>,
    error: KeyringError,
)
    ensures
        unlocked(record, account, Err(error), again) == Err::<Seq<u8>, KeyringError>(error),
        released(record, account.1, key@) matches Err(e) ==> unlocked(
            record,
            account,
            Ok(key),
            again,
        ) == Err::<Seq<u8>, KeyringError>(e),
        released(record, account.1, key@) is Ok && (again matches Ok(after) && after.1 == account.1)
            ==> unlocked(record, account, Ok(key), again) == released(record, account.1, key@),
        released(record, account.1, key@) is Ok && (again matches Ok(after) && after.1 != account.1)
            ==> unlocked(record, account, Ok(key), again) == Err::<Seq<u8>, KeyringError>(
            KeyringError::ChangedDuringUnlock,
        ),
        released(record, account.1, key@) is Ok ==> (again matches Err(e) ==> unlocked(
            record,
            account,
            Ok(key),
            again,
        ) == Err::<Seq<u8>, KeyringError>(e)),
{
}

/// The record in stored bytes can have opened for the account of a user.
pub open spec fn record_opened<L, K>(
    username: Seq<u8>,
    blob: Seq<u8>,
    look: L,
    unseal: K,
) -> bool where
    L: FnOnce() -> UserEntry,
    K: FnOnce(&[u8], &[u8]) -> Result<[u8; 32], KeyringError>,
 {
    exists|
        account: (u32, Seq<u8>),
        public: &[u8],
        private: &[u8],
        unsealed: Result<[u8; 32], KeyringError>,
    |
        {
            &&& #[trigger] account_seen(0, username, look, account)
            &&& #[trigger] call_ensures(unseal, (public, private), unsealed)
            &&& halves_of(blob, public@, private@)
            &&& parsed_record(blob) matches Ok(record) && decrypted(
                record,
                account.1,
                unsealed,
            ) is Ok
        }
}

/// `r` is what unsealing the key of a record and looking at the account again lead to.
pub open spec fn opening_outcome<K, M>(
    username: Seq<u8>,
    record: RecordModel,
    account: (u32, Seq<u8>),
    unseal: K,
    look_again: M,
    r: Result<Secret, KeyringError>,
) -> bool where
    K: FnOnce(&[u8], &[u8]) -> Result<[u8; 32], KeyringError>,
    M: FnOnce() -> UserEntry,
 {
    exists|public: &[u8], private: &[u8], unsealed: Result<[u8; 32], KeyringError>|
        {
            &&& public@ == record.public
            &&& private@ == record.private
            &&& #[trigger] call_ensures(unseal, (public, private), unsealed)
            &&& match decrypted(record, account.1, unsealed) {
                Err(e) => r == Err::<Secret, KeyringError>(e),
                Ok(_) => exists|entry: UserEntry| #[trigger]
                    call_ensures(look_again, (), entry) && released_view(r) == unlocked(
                        record,
                        account,
                        unsealed,
                        account_of(0, username, entry),
                    ),
            }
        }
}

/// `r` is what looking up the account and opening stored bytes for it lead to.
pub open spec fn unlock_outcome<L, K, M>(
    username: Seq<u8>,
    blob: Seq<u8>,
    look: L,
    unseal: K,
    look_again: M,
    r: Result<Secret, KeyringError>,
) -> bool where
    L: FnOnce() -> UserEntry,
    K: FnOnce(&[u8], &[u8]) -> Result<[u8; 32], KeyringError>,
    M: FnOnce() -> UserEntry,
 {
    ||| r matches Err(e) && account_refused(0, username, look, e)
    ||| exists|account: (u32, Seq<u8>)| #[trigger]
        account_seen(0, username, look, account) && match parsed_record(blob) {
            Err(e) => r == Err::<Secret, KeyringError>(e),
            Ok(record) => opening_outcome(username, record, account, unseal, look_again, r),
        }
}

/// A password is released only from a record, under the key that was unsealed from the halves
/// of that record, and to an account that was the same before and after.
pub proof fn unlocked_passwords_are_for_the_account<L, K, M>(
    username: Seq<u8>,
    blob: Seq<u8>,
    look: L,
    unseal: K,
    look_again: M,
    secret: Secret,
) where
    L: FnOnce() -> UserEntry,
    K: FnOnce(&[u8], &[u8]) -> Result<[u8; 32], KeyringError>,
    M: FnOnce() -> UserEntry,

    requires
        unlock_outcome(username, blob, look, unseal, look_again, Ok(secret)),
    ensures
        parsed_record(blob) is Ok,
        exists|
            account: (u32, Seq<u8>),
            public: &[u8],
            private: &[u8],
            back: Result<[u8; 32], KeyringError>,
        |
            {
                &&& #[trigger] account_seen(0, username, look, account)
                &&& account_unchanged(username, look_again, account.1)
                &&& public@ == parsed_record(blob)->Ok_0.public
                &&& private@ == parsed_record(blob)->Ok_0.private
                &&& #[trigger] call_ensures(unseal, (public, private), back)
                &&& back matches Ok(key) && released(parsed_record(blob)->Ok_0, account.1, key@)
                    == Ok::<Seq<u8>, KeyringError>(secret_bytes(secret))
            },
{
    let account = choose|account: (u32, Seq<u8>)| #[trigger]
        account_seen(0, username, look, account) && match parsed_record(blob) {
            Err(e) => Ok::<Secret, KeyringError>(secret) == Err::<Secret, KeyringError>(e),
            Ok(record) => opening_outcome(
                username,
                record,
                account,
                unseal,
                look_again,
                Ok(secret),
            ),
        };
    let record = parsed_record(blob)->Ok_0;
    let (public, private, back) = choose|
        public: &[u8],
        private: &[u8],
        unsealed: Result<[u8; 32], KeyringError>,
    |
        {
            &&& public@ == record.public
            &&& private@ == record.private
            &&& #[trigger] call_ensures(unseal, (public, private), unsealed)
            &&& match decrypted(record, account.1, unsealed) {
                Err(e) => Ok::<Secret, KeyringError>(secret) == Err::<Secret, KeyringError>(e),
                Ok(_) => exists|entry: UserEntry| #[trigger]
                    call_ensures(look_again, (), entry) && released_view(Ok(secret)) == unlocked(
                        record,
                        account,
                        unsealed,
                        account_of(0, username, entry),
                    ),
            }
        };
    let entry = choose|entry: UserEntry| #[trigger]
        call_ensures(look_again, (), entry) && released_view(Ok(secret)) == unlocked(
            record,
            account,
            back,
            account_of(0, username, entry),
        );
    released_accounts_are_unchanged(record, account, back, account_of(0, username, entry));
    let after = account_of(0, username, entry)->Ok_0;
    assert(account_seen(0, username, look_again, after));
}

/// Releases the password in stored bytes to a user whose account stays as it is meanwhile.
/// The account is looked up, the record is read, the key is unsealed, and the account is
/// looked up again; the first failure ends it, and no later call is made.
pub fn unlock<L, K, M>(username: &str, blob: &[u8], look: L, unseal: K, look_again: M) -> (r:
    Result<Secret, KeyringError>) where
    L: FnOnce() -> UserEntry,
    K: FnOnce(&[u8], &[u8]) -> Result<[u8; 32], KeyringError>,
    M: FnOnce() -> UserEntry,

    requires
        caller_verdict(0, username.spec_bytes()) is Ok ==> call_requires(look, ()),
        forall|public: &[u8], private: &[u8]|
            account_known(0, username.spec_bytes(), look) && halves_of(blob@, public@, private@)
                ==> #[trigger] call_requires(unseal, (public, private)),
        record_opened(username.spec_bytes(), blob@, look, unseal) ==> call_requires(
            look_again,
            (),
        ),
    ensures
        unlock_outcome(username.spec_bytes(), blob@, look, unseal, look_again, r),
{
    let account: Account = match look_up(0, username, look) {
        Err(e) => {
            return Err(e);
        },
        Ok(account) => account,
    };
    match decrypt_with(blob, &account, unseal) {
        Err(e) => Err(e),
        Ok(secret) => {
            assert(record_opened(username.spec_bytes(), blob@, look, unseal));
            match look_up(0, username, look_again) {
                Err(e) => Err(e),
                Ok(after) => {
                    match ensure_unchanged(&account, &after, Phase::Unlock) {
                        Err(e) => Err(e),
                        Ok(_) => Ok(secret),
                    }
                },
            }
        },
    }
}

/// Looking at the store directory can have found one that is accepted.
pub open spec fn store_accepted<D>(directory: D) -> bool where
    D: FnOnce() -> Result<Option<DirectoryFacts>, KeyringError>,
 {
    exists|seen: Result<Option<DirectoryFacts>, KeyringError>| #[trigger]
        call_ensures(directory, (), seen) && (seen matches Ok(Some(facts)) && facts.verdict() is Ok)
}

/// Finding a user can have given this user id.
pub open spec fn user_found<U>(euid: u32, username: Seq<u8>, user: U, uid: u32) -> bool where
    U: FnOnce() -> Option<u32>,
 {
    caller_verdict(euid, username) is Ok && exists|found: Option<u32>| #[trigger]
        call_ensures(user, (), found) && permitted_uid(euid, username, found) == Ok::<
            u32,
            KeyringError,
        >(uid)
}

/// The path is that of the record of a user, as the user can have been found.
pub open spec fn record_wanted<U>(
    euid: u32,
    username: Seq<u8>,
    user: U,
    path: Seq<char>,
) -> bool where U: FnOnce() -> Option<u32> {
    exists|uid: u32| #[trigger]
        user_found(euid, username, user, uid) && path == record_path_text(STORE_DIR@, uid)
}

/// Finding a user for root and reading the record can have given these bytes.
pub open spec fn record_read<U, R>(username: Seq<u8>, user: U, read: R, blob: Seq<u8>) -> bool where
    U: FnOnce() -> Option<u32>,
    R: FnOnce(String) -> Result<Option<Vec<u8>>, KeyringError>,
 {
    exists|path: String, contents: Result<Option<Vec<u8>>, KeyringError>|
        {
            &&& record_wanted(0, username, user, path@)
            &&& #[trigger] call_ensures(read, (path,), contents)
            &&& contents matches Ok(Some(bytes)) && bytes@ == blob
        }
}

/// `r` is what reading the record of a user id and unlocking it lead to.
pub open spec fn reading_outcome<R, L, K, M>(
    username: Seq<u8>,
    uid: u32,
    read: R,
    look: L,
    unseal: K,
    look_again: M,
    r: Result<Option<Secret>, KeyringError>,
) -> bool where
    R: FnOnce(String) -> Result<Option<Vec<u8>>, KeyringError>,
    L: FnOnce() -> UserEntry,
    K: FnOnce(&[u8], &[u8]) -> Result<[u8; 32], KeyringError>,
    M: FnOnce() -> UserEntry,
 {
    exists|path: String, contents: Result<Option<Vec<u8>>, KeyringError>|
        {
            &&& path@ == record_path_text(STORE_DIR@, uid)
            &&& #[trigger] call_ensures(read, (path,), contents)
            &&& match contents {
                Err(e) => r == Err::<Option<Secret>, KeyringError>(e),
                Ok(None) => r == Ok::<Option<Secret>, KeyringError>(None),
                Ok(Some(blob)) => exists|opened: Result<Secret, KeyringError>| #[trigger]
                    unlock_outcome(username, blob@, look, unseal, look_again, opened) && r == (
                    match opened {
                        Ok(secret) => Ok::<Option<Secret>, KeyringError>(Some(secret)),
                        Err(e) => Err(e),
                    }),
            }
        }
}

/// `r` is what finding the user, reading the record and unlocking it lead to.
pub open spec fn finding_outcome<U, R, L, K, M>(
    username: Seq<u8>,
    user: U,
    read: R,
    look: L,
    unseal: K,
    look_again: M,
    r: Result<Option<Secret>, KeyringError>,
) -> bool where
    U: FnOnce() -> Option<u32>,
    R: FnOnce(String) -> Result<Option<Vec<u8>>, KeyringError>,
    L: FnOnce() -> UserEntry,
    K: FnOnce(&[u8], &[u8]) -> Result<[u8; 32], KeyringError>,
    M: FnOnce() -> UserEntry,
 {
    match caller_verdict(0, username) {
        Err(e) => r == Err::<Option<Secret>, KeyringError>(e),
        Ok(_) => exists|found: Option<u32>| #[trigger]
            call_ensures(user, (), found) && match permitted_uid(0, username, found) {
                Err(e) => r == Err::<Option<Secret>, KeyringError>(e),
                Ok(uid) => reading_outcome(username, uid, read, look, unseal, look_again, r),
            },
    }
}

/// A credential is released only to a user who was found and is permitted, out of the record
/// file of that user's id, and as unlocking that record released it.
pub proof fn credentials_come_from_the_record_of_the_user<U, R, L, K, M>(
    username: Seq<u8>,
    user: U,
    read: R,
    look: L,
    unseal: K,
    look_again: M,
    secret: Secret,
) where
    U: FnOnce() -> Option<u32>,
    R: FnOnce(String) -> Result<Option<Vec<u8>>, KeyringError>,
    L: FnOnce() -> UserEntry,
    K: FnOnce(&[u8], &[u8]) -> Result<[u8; 32], KeyringError>,
    M: FnOnce() -> UserEntry,

    requires
        finding_outcome(username, user, read, look, unseal, look_again, Ok(Some(secret))),
    ensures
        exists|uid: u32, path: String, contents: Result<Option<Vec<u8>>, KeyringError>|
            {
                &&& #[trigger] user_found(0, username, user, uid)
                &&& path@ == record_path_text("/var/lib/gaze/keyring"@, uid)
                &&& #[trigger] call_ensures(read, (path,), contents)
                &&& contents matches Ok(Some(blob)) && unlock_outcome(
                    username,
                    blob@,
                    look,
                    unseal,
                    look_again,
                    Ok(secret),
                )
            },
{
    let r = Ok::<Option<Secret>, KeyringError>(Some(secret));
    let found = choose|found: Option<u32>| #[trigger]
        call_ensures(user, (), found) && match permitted_uid(0, username, found) {
            Err(e) => r == Err::<Option<Secret>, KeyringError>(e),
            Ok(uid) => reading_outcome(username, uid, read, look, unseal, look_again, r),
        };
    let uid = permitted_uid(0, username, found)->Ok_0;
    assert(user_found(0, username, user, uid));
    assert(reading_outcome(username, uid, read, look, unseal, look_again, r));
}

/// Releases the credential of a user, if one is stored. Call it only after the face was
/// matched, found alive and confirmed. A missing directory or record is a user without a
/// credential; every other failure is an error, on which the password is asked for.
///
/// The calls tell of the store directory, the user id, the contents of the record file, the
/// account, the unsealed key, and the account once more. Each is made at most once, and only
/// if everything before it went well; for a caller other than root none is made.
pub fn load<D, U, R, L, K, M>(
    euid: u32,
    username: &str,
    directory: D,
    user: U,
    read: R,
    look: L,
    unseal: K,
    look_again: M,
) -> (r: Result<Option<Secret>, KeyringError>) where
    D: FnOnce() -> Result<Option<DirectoryFacts>, KeyringError>,
    U: FnOnce() -> Option<u32>,
    R: FnOnce(String) -> Result<Option<Vec<u8>>, KeyringError>,
    L: FnOnce() -> UserEntry,
    K: FnOnce(&[u8], &[u8]) -> Result<[u8; 32], KeyringError>,
    M: FnOnce() -> UserEntry,

    requires
        euid == 0 ==> call_requires(directory, ()),
        euid == 0 && store_accepted(directory) && caller_verdict(0, username.spec_bytes()) is Ok
            ==> call_requires(user, ()),
        forall|path: String|
            euid == 0 && store_accepted(directory) && record_wanted(
                0,
                username.spec_bytes(),
                user,
                path@,
            ) ==> #[trigger] call_requires(read, (path,)),
        forall|blob: Seq<u8>|
            euid == 0 && store_accepted(directory) && #[trigger] record_read(
                username.spec_bytes(),
                user,
                read,
                blob,
            ) ==> call_requires(look, ()),
        forall|blob: Seq<u8>, public: &[u8], private: &[u8]|
            euid == 0 && store_accepted(directory) && #[trigger] record_read(
                username.spec_bytes(),
                user,
                read,
                blob,
            ) && account_known(0, username.spec_bytes(), look) && halves_of(
                blob,
                public@,
                private@,
            ) ==> #[trigger] call_requires(unseal, (public, private)),
        forall|blob: Seq<u8>|
            euid == 0 && store_accepted(directory) && #[trigger] record_read(
                username.spec_bytes(),
                user,
                read,
                blob,
            ) && record_opened(username.spec_bytes(), blob, look, unseal) ==> call_requires(
                look_again,
                (),
            ),
    ensures
        euid != 0 ==> r == Err::<Option<Secret>, KeyringError>(KeyringError::AccessRequiresRoot),
        euid == 0 ==> exists|seen: Result<Option<DirectoryFacts>, KeyringError>| #[trigger]
            call_ensures(directory, (), seen) && match seen {
                Err(e) => r == Err::<Option<Secret>, KeyringError>(e),
                Ok(None) => r == Ok::<Option<Secret>, KeyringError>(None),
                Ok(Some(facts)) => match facts.verdict() {
                    Err(e) => r == Err::<Option<Secret>, KeyringError>(e),
                    Ok(_) => finding_outcome(
                        username.spec_bytes(),
                        user,
                        read,
                        look,
                        unseal,
                        look_again,
                        r,
                    ),
                },
            },
{
    match ensure_root(euid) {
        Err(e) => {
            return Err(e);
        },
        Ok(_) => {},
    }
    let seen: Result<Option<DirectoryFacts>, KeyringError> = directory();
    assert(call_ensures(directory, (), seen));
    match seen {
        Err(e) => {
            return Err(e);
        },
        Ok(None) => {
            return Ok(None);
        },
        Ok(Some(facts)) => {
            match facts.check() {
                Err(e) => {
                    return Err(e);
                },
                Ok(_) => {},
            }
        },
    }
    assert(store_accepted(directory));
    match check_caller(0, username) {
        Err(e) => {
            return Err(e);
        },
        Ok(_) => {},
    }
    let found: Option<u32> = user();
    assert(call_ensures(user, (), found));
    match Account::uid(0, username, found) {
        Err(e) => Err(e),
        Ok(uid) => {
            assert(user_found(0, username.spec_bytes(), user, uid));
            let path: String = record_path(STORE_DIR, uid);
            let ghost place = path;
            assert(record_wanted(0, username.spec_bytes(), user, place@));
            let contents: Result<Option<Vec<u8>>, KeyringError> = read(path);
            assert(call_ensures(read, (place,), contents));
            match contents {
                Err(e) => Err(e),
                Ok(None) => Ok(None),
                Ok(Some(blob)) => {
                    assert(record_read(username.spec_bytes(), user, read, blob@));
                    let opened: Result<Secret, KeyringError> = unlock(
                        username,
                        blob.as_slice(),
                        look,
                        unseal,
                        look_again,
                    );
                    assert(unlock_outcome(
                        username.spec_bytes(),
                        blob@,
                        look,
                        unseal,
                        look_again,
                        opened,
                    ));
                    match opened {
                        Ok(secret) => Ok(Some(secret)),
                        Err(e) => Err(e),
                    }
                },
            }
        },
    }
}

/// Sealing a password under a key and a nonce, and opening the record again, can have given
/// these bytes.
pub open spec fn record_ready<S, K>(
    key: &[u8; 32],
    nonce: Option<[u8; 12]>,
    binding: Seq<u8>,
    password: Seq<u8>,
    seal: S,
    unseal: K,
    blob: Seq<u8>,
) -> bool where
    S: FnOnce(&[u8; 32]) -> Result<(Vec<u8>, Vec<u8>), KeyringError>,
    K: FnOnce(&[u8], &[u8]) -> Result<[u8; 32], KeyringError>,
 {
    exists|sealed: Result<(Vec<u8>, Vec<u8>), KeyringError>, record: Result<Vec<u8>, KeyringError>|
        {
            &&& #[trigger] call_ensures(seal, (key,), sealed)
            &&& sealed is Ok
            &&& #[trigger] prepared(
                key@,
                nonce,
                binding,
                password,
                sealed->Ok_0.0@,
                sealed->Ok_0.1@,
                unseal,
                record,
            )
            &&& record matches Ok(bytes) && bytes@ == blob
        }
}

/// `r` is what looking at the account again and writing a record that opened lead to. The
/// record is only written while the account is the one that it was sealed for.
pub open spec fn writing_outcome<M, W>(
    username: Seq<u8>,
    account: (u32, Seq<u8>),
    blob: Seq<u8>,
    look_again: M,
    write: W,
    r: Result<(), KeyringError>,
) -> bool where
    M: FnOnce() -> UserEntry,
    W: FnOnce(&Account, &[u8]) -> Result<(), KeyringError>,
 {
    ||| r matches Err(e) && account_refused(0, username, look_again, e)
    ||| exists|after: (u32, Seq<u8>)| #[trigger]
        account_seen(0, username, look_again, after) && if after.1 != account.1 {
            r == Err::<(), KeyringError>(KeyringError::ChangedDuringEnrollment)
        } else {
            exists|owner: &Account, bytes: &[u8]|
                {
                    &&& owner.spec_uid() == account.0
                    &&& owner.binding_bytes() == account.1
                    &&& bytes@ == blob
                    &&& #[trigger] call_ensures(write, (owner, bytes), r)
                }
        }
}

/// A record is stored only while the account is the one that it was sealed for, and what is
/// handed to the writer is that record and that account.
pub proof fn records_are_written_for_the_account<M, W>(
    username: Seq<u8>,
    account: (u32, Seq<u8>),
    blob: Seq<u8>,
    look_again: M,
    write: W,
) where
    M: FnOnce() -> UserEntry,
    W: FnOnce(&Account, &[u8]) -> Result<(), KeyringError>,

    requires
        writing_outcome(username, account, blob, look_again, write, Ok(())),
    ensures
        account_unchanged(username, look_again, account.1),
        exists|owner: &Account, bytes: &[u8]|
            {
                &&& owner.spec_uid() == account.0
                &&& owner.binding_bytes() == account.1
                &&& bytes@ == blob
                &&& #[trigger] call_ensures(write, (owner, bytes), Ok(()))
            },
{
}

/// `r` is what sealing a key, preparing the record under it and a nonce, and writing the
/// record lead to.
pub open spec fn storing_outcome<S, K, M, W>(
    key: &[u8; 32],
    nonce: Option<[u8; 12]>,
    username: Seq<u8>,
    account: (u32, Seq<u8>),
    password: Seq<u8>,
    seal: S,
    unseal: K,
    look_again: M,
    write: W,
    r: Result<(), KeyringError>,
) -> bool where
    S: FnOnce(&[u8; 32]) -> Result<(Vec<u8>, Vec<u8>), KeyringError>,
    K: FnOnce(&[u8], &[u8]) -> Result<[u8; 32], KeyringError>,
    M: FnOnce() -> UserEntry,
    W: FnOnce(&Account, &[u8]) -> Result<(), KeyringError>,
 {
    exists|sealed: Result<(Vec<u8>, Vec<u8>), KeyringError>| #[trigger]
        call_ensures(seal, (key,), sealed) && match sealed {
            Err(e) => r == Err::<(), KeyringError>(e),
            Ok(halves) => exists|record: Result<Vec<u8>, KeyringError>| #[trigger]
                prepared(
                    key@,
                    nonce,
                    account.1,
                    password,
                    halves.0@,
                    halves.1@,
                    unseal,
                    record,
                ) && match record {
                    Err(e) => r == Err::<(), KeyringError>(e),
                    Ok(blob) => writing_outcome(username, account, blob@, look_again, write, r),
                },
        }
}

/// A credential is stored only if the key was sealed and a record was prepared under that
/// key for the account, and the record was then written.
pub proof fn stored_credentials_were_prepared<S, K, M, W>(
    key: &[u8; 32],
    nonce: Option<[u8; 12]>,
    username: Seq<u8>,
    account: (u32, Seq<u8>),
    password: Seq<u8>,
    seal: S,
    unseal: K,
    look_again: M,
    write: W,
) where
    S: FnOnce(&[u8; 32]) -> Result<(Vec<u8>, Vec<u8>), KeyringError>,
    K: FnOnce(&[u8], &[u8]) -> Result<[u8; 32], KeyringError>,
    M: FnOnce() -> UserEntry,
    W: FnOnce(&Account, &[u8]) -> Result<(), KeyringError>,

    requires
        storing_outcome(
            key,
            nonce,
            username,
            account,
            password,
            seal,
            unseal,
            look_again,
            write,
            Ok(()),
        ),
    ensures
        exists|sealed: Result<(Vec<u8>, Vec<u8>), KeyringError>, record: Result<
            Vec<u8>,
            KeyringError,
        >|
            {
                &&& #[trigger] call_ensures(seal, (key,), sealed)
                &&& sealed is Ok
                &&& #[trigger] prepared(
                    key@,
                    nonce,
                    account.1,
                    password,
                    sealed->Ok_0.0@,
                    sealed->Ok_0.1@,
                    unseal,
                    record,
                )
                &&& record matches Ok(blob) && writing_outcome(
                    username,
                    account,
                    blob@,
                    look_again,
                    write,
                    Ok(()),
                )
            },
        valid_password(password),
        nonce is Some,
        account_unchanged(username, look_again, account.1),
{
    let sealed = choose|sealed: Result<(Vec<u8>, Vec<u8>), KeyringError>| #[trigger]
        call_ensures(seal, (key,), sealed) && match sealed {
            Err(e) => Ok::<(), KeyringError>(()) == Err::<(), KeyringError>(e),
            Ok(halves) => exists|record: Result<Vec<u8>, KeyringError>| #[trigger]
                prepared(
                    key@,
                    nonce,
                    account.1,
                    password,
                    halves.0@,
                    halves.1@,
                    unseal,
                    record,
                ) && match record {
                    Err(e) => Ok::<(), KeyringError>(()) == Err::<(), KeyringError>(e),
                    Ok(blob) => writing_outcome(
                        username,
                        account,
                        blob@,
                        look_again,
                        write,
                        Ok(()),
                    ),
                },
        };
    let halves = sealed->Ok_0;
    let record = choose|record: Result<Vec<u8>, KeyringError>| #[trigger]
        prepared(key@, nonce, account.1, password, halves.0@, halves.1@, unseal, record)
            && match record {
            Err(e) => Ok::<(), KeyringError>(()) == Err::<(), KeyringError>(e),
            Ok(blob) => writing_outcome(username, account, blob@, look_again, write, Ok(())),
        };
    let blob = record->Ok_0;
    prepared_records_open_again(
        key@,
        nonce,
        account.1,
        password,
        halves.0@,
        halves.1@,
        unseal,
        blob,
    );
    records_are_written_for_the_account(username, account, blob@, look_again, write);
}

/// Seals a key, prepares the record of an account under it and has the record written.
/// `nonce` is what the random source gave.
///
/// The record is only handed to `write` after it opened again and the account was found to
/// be the same, so that a failure before that leaves a stored one as it is.
pub fn store_under<S, K, M, W>(
    key: &[u8; 32],
    nonce: Option<[u8; 12]>,
    username: &str,
    account: &Account,
    password: &[u8],
    seal: S,
    unseal: K,
    look_again: M,
    write: W,
) -> (r: Result<(), KeyringError>) where
    S: FnOnce(&[u8; 32]) -> Result<(Vec<u8>, Vec<u8>), KeyringError>,
    K: FnOnce(&[u8], &[u8]) -> Result<[u8; 32], KeyringError>,
    M: FnOnce() -> UserEntry,
    W: FnOnce(&Account, &[u8]) -> Result<(), KeyringError>,

    requires
        call_requires(seal, (key,)),
        forall|halves: (Vec<u8>, Vec<u8>), half: &[u8], other: &[u8]|
            {
                &&& #[trigger] call_ensures(seal, (key,), Ok(halves))
                &&& nonce is Some
                &&& sealable(password@, halves.0@, halves.1@)
                &&& half@ == halves.0@
                &&& other@ == halves.1@
            } ==> #[trigger] call_requires(unseal, (half, other)),
        forall|blob: Seq<u8>|
            caller_verdict(0, username.spec_bytes()) is Ok && #[trigger] record_ready(
                key,
                nonce,
                account.binding_bytes(),
                password@,
                seal,
                unseal,
                blob,
            ) ==> call_requires(look_again, ()),
        forall|owner: &Account, bytes: &[u8]|
            {
                &&& owner.spec_uid() == account.spec_uid()
                &&& owner.binding_bytes() == account.binding_bytes()
                &&& record_ready(
                    key,
                    nonce,
                    account.binding_bytes(),
                    password@,
                    seal,
                    unseal,
                    bytes@,
                )
                &&& account_unchanged(
                    username.spec_bytes(),
                    look_again,
                    account.binding_bytes(),
                )
            } ==> #[trigger] call_requires(write, (owner, bytes)),
    ensures
        storing_outcome(
            key,
            nonce,
            username.spec_bytes(),
            (account.spec_uid(), account.binding_bytes()),
            password@,
            seal,
            unseal,
            look_again,
            write,
            r,
        ),
{
    let sealed: Result<(Vec<u8>, Vec<u8>), KeyringError> = seal(key);
    assert(call_ensures(seal, (key,), sealed));
    let ghost told = sealed;
    let ghost owner = (account.spec_uid(), account.binding_bytes());
    match sealed {
        Err(e) => Err(e),
        Ok(halves) => {
            assert(call_ensures(seal, (key,), Ok(halves)));
            let record: Result<Vec<u8>, KeyringError> = prepare_record(
                key,
                nonce,
                account,
                password,
                halves.0.as_slice(),
                halves.1.as_slice(),
                unseal,
            );
            assert(prepared(
                key@,
                nonce,
                owner.1,
                password@,
                told->Ok_0.0@,
                told->Ok_0.1@,
                unseal,
                record,
            ));
            match record {
                Err(e) => Err(e),
                Ok(blob) => {
                    assert(record_ready(
                        key,
                        nonce,
                        account.binding_bytes(),
                        password@,
                        seal,
                        unseal,
                        blob@,
                    ));
                    match look_up(0, username, look_again) {
                        Err(e) => Err(e),
                        Ok(after) => {
                            match ensure_unchanged(account, &after, Phase::Enrollment) {
                                Err(e) => Err(e),
                                Ok(_) => {
                                    let bytes: &[u8] = blob.as_slice();
                                    let r: Result<(), KeyringError> = write(account, bytes);
                                    assert(call_ensures(write, (account, bytes), r));
                                    r
                                },
                            }
                        },
                    }
                },
            }
        },
    }
}

/// Looking at the directory above the store can have found one that is accepted.
pub open spec fn parent_accepted<P>(parent: P) -> bool where P: FnOnce() -> DirectoryFacts {
    exists|above: DirectoryFacts| #[trigger]
        call_ensures(parent, (), above) && above.verdict() is Ok
}

/// Creating the store directory can have given one that is accepted.
pub open spec fn place_accepted<C>(create: C) -> bool where
    C: FnOnce() -> Result<DirectoryFacts, KeyringError>,
 {
    exists|made: Result<DirectoryFacts, KeyringError>| #[trigger]
        call_ensures(create, (), made) && (made matches Ok(facts) && facts.verdict() is Ok)
}

/// A password can be accepted for the account of a user.
pub open spec fn enrollable<L>(
    euid: u32,
    username: Seq<u8>,
    password: Seq<u8>,
    look: L,
) -> bool where L: FnOnce() -> UserEntry {
    account_known(euid, username, look) && valid_password(password)
}

/// A password can be accepted for the account of a user, and the place for its record too.
pub open spec fn placed<L, P, C>(
    euid: u32,
    username: Seq<u8>,
    password: Seq<u8>,
    look: L,
    parent: P,
    create: C,
) -> bool where
    L: FnOnce() -> UserEntry,
    P: FnOnce() -> DirectoryFacts,
    C: FnOnce() -> Result<DirectoryFacts, KeyringError>,
 {
    enrollable(euid, username, password, look) && parent_accepted(parent) && place_accepted(create)
}

/// What the random source can have given for a nonce: one, or none.
pub open spec fn nonce_drawn(nonce: Option<[u8; 12]>) -> bool {
    match nonce {
        Some(nonce) => drawn(nonce),
        None => draw_failed::<12>(),
    }
}

/// `r` is what storing a credential under a drawn key and nonce leads to, or the key could
/// not be drawn.
pub open spec fn drawing_outcome<S, K, M, W>(
    username: Seq<u8>,
    account: (u32, Seq<u8>),
    password: Seq<u8>,
    seal: S,
    unseal: K,
    look_again: M,
    write: W,
    r: Result<(), KeyringError>,
) -> bool where
    S: FnOnce(&[u8; 32]) -> Result<(Vec<u8>, Vec<u8>), KeyringError>,
    K: FnOnce(&[u8], &[u8]) -> Result<[u8; 32], KeyringError>,
    M: FnOnce() -> UserEntry,
    W: FnOnce(&Account, &[u8]) -> Result<(), KeyringError>,
 {
    ||| r == Err::<(), KeyringError>(KeyringError::KeyUnavailable) && draw_failed::<32>()
    ||| exists|key: &[u8; 32], nonce: Option<[u8; 12]>|
        drawn(*key) && nonce_drawn(nonce) && #[trigger] storing_outcome(
            key,
            nonce,
            username,
            account,
            password,
            seal,
            unseal,
            look_again,
            write,
            r,
        )
}

/// `r` is what checking the place of the record and storing it there lead to.
pub open spec fn placing_outcome<P, C, S, K, M, W>(
    username: Seq<u8>,
    account: (u32, Seq<u8>),
    password: Seq<u8>,
    parent: P,
    create: C,
    seal: S,
    unseal: K,
    look_again: M,
    write: W,
    r: Result<(), KeyringError>,
) -> bool where
    P: FnOnce() -> DirectoryFacts,
    C: FnOnce() -> Result<DirectoryFacts, KeyringError>,
    S: FnOnce(&[u8; 32]) -> Result<(Vec<u8>, Vec<u8>), KeyringError>,
    K: FnOnce(&[u8], &[u8]) -> Result<[u8; 32], KeyringError>,
    M: FnOnce() -> UserEntry,
    W: FnOnce(&Account, &[u8]) -> Result<(), KeyringError>,
 {
    exists|above: DirectoryFacts| #[trigger]
        call_ensures(parent, (), above) && match above.verdict() {
            Err(e) => r == Err::<(), KeyringError>(e),
            Ok(_) => exists|made: Result<DirectoryFacts, KeyringError>| #[trigger]
                call_ensures(create, (), made) && match made {
                    Err(e) => r == Err::<(), KeyringError>(e),
                    Ok(facts) => match facts.verdict() {
                        Err(e) => r == Err::<(), KeyringError>(e),
                        Ok(_) => drawing_outcome(
                            username,
                            account,
                            password,
                            seal,
                            unseal,
                            look_again,
                            write,
                            r,
                        ),
                    },
                },
        }
}

/// A credential is stored only below a directory that was accepted before the store was made
/// and in a store that was accepted once it was.
pub proof fn credentials_are_placed_in_an_accepted_store<P, C, S, K, M, W>(
    username: Seq<u8>,
    account: (u32, Seq<u8>),
    password: Seq<u8>,
    parent: P,
    create: C,
    seal: S,
    unseal: K,
    look_again: M,
    write: W,
) where
    P: FnOnce() -> DirectoryFacts,
    C: FnOnce() -> Result<DirectoryFacts, KeyringError>,
    S: FnOnce(&[u8; 32]) -> Result<(Vec<u8>, Vec<u8>), KeyringError>,
    K: FnOnce(&[u8], &[u8]) -> Result<[u8; 32], KeyringError>,
    M: FnOnce() -> UserEntry,
    W: FnOnce(&Account, &[u8]) -> Result<(), KeyringError>,

    requires
        placing_outcome(
            username,
            account,
            password,
            parent,
            create,
            seal,
            unseal,
            look_again,
            write,
            Ok(()),
        ),
    ensures
        exists|above: DirectoryFacts| #[trigger]
            call_ensures(parent, (), above) && above.verdict() is Ok,
        exists|made: Result<DirectoryFacts, KeyringError>| #[trigger]
            call_ensures(create, (), made) && (made matches Ok(facts) && facts.verdict() is Ok),
        drawing_outcome(username, account, password, seal, unseal, look_again, write, Ok(())),
{
}

/// Stores a credential for a user under a fresh random key and nonce; `store_under` says
/// what follows for each of them.
///
/// The calls tell of the account, the directory above the store, the store directory once it
/// is created, the two halves of the sealed key, the unsealed key, the account once more,
/// and whether the record was written. Each is made at most once, and only if everything
/// before it went well: a failure before the last leaves a stored record as it is.
pub fn enroll<L, P, C, S, K, M, W>(
    euid: u32,
    username: &str,
    password: &[u8],
    look: L,
    parent: P,
    create: C,
    seal: S,
    unseal: K,
    look_again: M,
    write: W,
) -> (r: Result<(), KeyringError>) where
    L: FnOnce() -> UserEntry,
    P: FnOnce() -> DirectoryFacts,
    C: FnOnce() -> Result<DirectoryFacts, KeyringError>,
    S: FnOnce(&[u8; 32]) -> Result<(Vec<u8>, Vec<u8>), KeyringError>,
    K: FnOnce(&[u8], &[u8]) -> Result<[u8; 32], KeyringError>,
    M: FnOnce() -> UserEntry,
    W: FnOnce(&Account, &[u8]) -> Result<(), KeyringError>,

    requires
        caller_verdict(euid, username.spec_bytes()) is Ok ==> call_requires(look, ()),
        enrollable(euid, username.spec_bytes(), password@, look) ==> call_requires(parent, ()),
        enrollable(euid, username.spec_bytes(), password@, look) && parent_accepted(parent)
            ==> call_requires(create, ()),
        forall|key: &[u8; 32]|
            placed(euid, username.spec_bytes(), password@, look, parent, create) && drawn(*key)
                ==> #[trigger] call_requires(seal, (key,)),
        forall|key: &[u8; 32], halves: (Vec<u8>, Vec<u8>), half: &[u8], other: &[u8]|
            {
                &&& placed(euid, username.spec_bytes(), password@, look, parent, create)
                &&& drawn(*key)
                &&& #[trigger] call_ensures(seal, (key,), Ok(halves))
                &&& sealable(password@, halves.0@, halves.1@)
                &&& half@ == halves.0@
                &&& other@ == halves.1@
            } ==> #[trigger] call_requires(unseal, (half, other)),
        forall|
            uid: u32,
            binding: Seq<u8>,
            key: &[u8; 32],
            nonce: Option<[u8; 12]>,
            blob: Seq<u8>,
        |
            {
                &&& placed(euid, username.spec_bytes(), password@, look, parent, create)
                &&& drawn(*key)
                &&& nonce_drawn(nonce)
                &&& #[trigger] account_seen(euid, username.spec_bytes(), look, (uid, binding))
                &&& #[trigger] record_ready(
                    key,
                    nonce,
                    binding,
                    password@,
                    seal,
                    unseal,
                    blob,
                )
            } ==> call_requires(look_again, ()),
        forall|key: &[u8; 32], nonce: Option<[u8; 12]>, owner: &Account, bytes: &[u8]|
            {
                &&& placed(euid, username.spec_bytes(), password@, look, parent, create)
                &&& drawn(*key)
                &&& nonce_drawn(nonce)
                &&& account_seen(
                    euid,
                    username.spec_bytes(),
                    look,
                    (owner.spec_uid(), owner.binding_bytes()),
                )
                &&& #[trigger] record_ready(
                    key,
                    nonce,
                    owner.binding_bytes(),
                    password@,
                    seal,
                    unseal,
                    bytes@,
                )
                &&& account_unchanged(username.spec_bytes(), look_again, owner.binding_bytes())
            } ==> #[trigger] call_requires(write, (owner, bytes)),
    ensures
        ({
            ||| r matches Err(e) && account_refused(euid, username.spec_bytes(), look, e)
            ||| exists|account: (u32, Seq<u8>)| #[trigger]
                account_seen(euid, username.spec_bytes(), look, account) && if !valid_password(
                    password@,
                ) {
                    r == Err::<(), KeyringError>(KeyringError::InvalidPassword)
                } else {
                    placing_outcome(
                        username.spec_bytes(),
                        account,
                        password@,
                        parent,
                        create,
                        seal,
                        unseal,
                        look_again,
                        write,
                        r,
                    )
                }
        }),
{
    let account: Account = match look_up(euid, username, look) {
        Err(e) => {
            return Err(e);
        },
        Ok(account) => account,
    };
    match validate_password(password) {
        Err(e) => {
            return Err(e);
        },
        Ok(_) => {},
    }
    let above: DirectoryFacts = parent();
    assert(call_ensures(parent, (), above));
    match above.check() {
        Err(e) => {
            return Err(e);
        },
        Ok(_) => {},
    }
    assert(parent_accepted(parent));
    let made: Result<DirectoryFacts, KeyringError> = create();
    assert(call_ensures(create, (), made));
    match made {
        Err(e) => {
            return Err(e);
        },
        Ok(facts) => {
            match facts.check() {
                Err(e) => {
                    return Err(e);
                },
                Ok(_) => {},
            }
        },
    }
    assert(place_accepted(create));
    match draw::<32>() {
        None => Err(KeyringError::KeyUnavailable),
        Some(mut key) => {
            let nonce: Option<[u8; 12]> = draw::<12>();
            let ghost fresh = key;
            let r: Result<(), KeyringError> = store_under(
                &key,
                nonce,
                username,
                &account,
                password,
                seal,
                unseal,
                look_again,
                write,
            );
            wipe(&mut key);
            assert(storing_outcome(
                &fresh,
                nonce,
                username.spec_bytes(),
                (account.spec_uid(), account.binding_bytes()),
                password@,
                seal,
                unseal,
                look_again,
                write,
                r,
            ));
            r
        },
    }
}

/// `r` is what removing the record of a user id below an existing directory leads to.
pub open spec fn removing_outcome<D, W>(
    uid: u32,
    directory: D,
    remove: W,
    r: Result<(), KeyringError>,
) -> bool where
    D: FnOnce() -> Result<Option<DirectoryFacts>, KeyringError>,
    W: FnOnce(String) -> Result<(), KeyringError>,
 {
    exists|seen: Result<Option<DirectoryFacts>, KeyringError>| #[trigger]
        call_ensures(directory, (), seen) && match seen {
            Err(e) => r == Err::<(), KeyringError>(e),
            Ok(None) => r == Ok::<(), KeyringError>(()),
            Ok(Some(facts)) => match facts.verdict() {
                Err(e) => r == Err::<(), KeyringError>(e),
                Ok(_) => exists|path: String|
                    path@ == record_path_text(STORE_DIR@, uid) && #[trigger] call_ensures(
                        remove,
                        (path,),
                        r,
                    ),
            },
        }
}

/// Nothing is removed but the record of the user, and nothing at all below a directory that
/// is not accepted; a store that is missing is a success.
pub proof fn only_the_record_of_the_user_is_removed<D, W>(
    uid: u32,
    directory: D,
    remove: W,
    r: Result<(), KeyringError>,
) where
    D: FnOnce() -> Result<Option<DirectoryFacts>, KeyringError>,
    W: FnOnce(String) -> Result<(), KeyringError>,

    requires
        removing_outcome(uid, directory, remove, r),
        forall|seen: Result<Option<DirectoryFacts>, KeyringError>|
            #[trigger] call_ensures(directory, (), seen) ==> (seen matches Ok(Some(facts))
                && facts.verdict() is Ok),
    ensures
        exists|path: String|
            path@ == record_path_text("/var/lib/gaze/keyring"@, uid) && #[trigger] call_ensures(
                remove,
                (path,),
                r,
            ),
{
}

/// What a missing or refused store makes of forgetting: a success, or the refusal.
pub proof fn missing_stores_hold_nothing_to_forget<D, W>(
    uid: u32,
    directory: D,
    remove: W,
    r: Result<(), KeyringError>,
    found: Result<Option<DirectoryFacts>, KeyringError>,
) where
    D: FnOnce() -> Result<Option<DirectoryFacts>, KeyringError>,
    W: FnOnce(String) -> Result<(), KeyringError>,

    requires
        removing_outcome(uid, directory, remove, r),
        forall|seen: Result<Option<DirectoryFacts>, KeyringError>|
            #[trigger] call_ensures(directory, (), seen) ==> seen == found,
    ensures
        found == Ok::<Option<DirectoryFacts>, KeyringError>(None) ==> r is Ok,
        found matches Err(e) ==> r == Err::<(), KeyringError>(e),
        found matches Ok(Some(facts)) ==> (facts.verdict() matches Err(e) ==> r == Err::<
            (),
            KeyringError,
        >(e)),
{
}

/// Forgets the credential of a user, if one is stored. `remove` removes the record file and
/// takes a missing one as removed; it is only called with the path of the user's record,
/// below an accepted directory.
pub fn forget<U, D, W>(euid: u32, username: &str, user: U, directory: D, remove: W) -> (r: Result<
    (),
    KeyringError,
>) where
    U: FnOnce() -> Option<u32>,
    D: FnOnce() -> Result<Option<DirectoryFacts>, KeyringError>,
    W: FnOnce(String) -> Result<(), KeyringError>,

    requires
        caller_verdict(euid, username.spec_bytes()) is Ok ==> call_requires(user, ()),
        forall|uid: u32| #[trigger]
            user_found(euid, username.spec_bytes(), user, uid) ==> call_requires(directory, ()),
        forall|path: String|
            record_wanted(euid, username.spec_bytes(), user, path@) && store_accepted(directory)
                ==> #[trigger] call_requires(remove, (path,)),
    ensures
        match caller_verdict(euid, username.spec_bytes()) {
            Err(e) => r == Err::<(), KeyringError>(e),
            Ok(_) => exists|found: Option<u32>| #[trigger]
                call_ensures(user, (), found) && match permitted_uid(
                    euid,
                    username.spec_bytes(),
                    found,
                ) {
                    Err(e) => r == Err::<(), KeyringError>(e),
                    Ok(uid) => removing_outcome(uid, directory, remove, r),
                },
        },
{
    match check_caller(euid, username) {
        Err(e) => {
            return Err(e);
        },
        Ok(_) => {},
    }
    let found: Option<u32> = user();
    assert(call_ensures(user, (), found));
    let uid: u32 = match Account::uid(euid, username, found) {
        Err(e) => {
            return Err(e);
        },
        Ok(uid) => uid,
    };
    assert(user_found(euid, username.spec_bytes(), user, uid));
    let seen: Result<Option<DirectoryFacts>, KeyringError> = directory();
    assert(call_ensures(directory, (), seen));
    match seen {
        Err(e) => Err(e),
        Ok(None) => Ok(()),
        Ok(Some(facts)) => {
            match facts.check() {
                Err(e) => Err(e),
                Ok(_) => {
                    let path: String = record_path(STORE_DIR, uid);
                    let ghost place = path;
                    assert(record_wanted(euid, username.spec_bytes(), user, place@));
                    let r: Result<(), KeyringError> = remove(path);
                    assert(call_ensures(remove, (place,), r));
                    r
                },
            }
        },
    }
}

} // verus!
