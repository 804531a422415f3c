use matrix_sdk_crypto::account::{Account, AccountPickle, PickledAccount, ReadOnlyAccount};
use matrix_sdk_crypto::error::OlmAccountError;
use matrix_sdk_crypto::group_session::{EncryptionSettings, HistoryVisibility};
use matrix_sdk_crypto::identifiers::{EventEncryptionAlgorithm, UserId};
use matrix_sdk_crypto::keys::IdentityKeys;
use matrix_sdk_crypto::string_map::StringMap;

fn alice() -> UserId {
    UserId::parse("@alice:example.org").unwrap()
}

fn keys() -> IdentityKeys {
    IdentityKeys::new("curve-key".to_owned(), "ed-key".to_owned())
}

fn account() -> ReadOnlyAccount {
    ReadOnlyAccount::new(&alice(), "ALICEDEVICE", keys())
}

fn counts(algorithm: &str, count: u64) -> StringMap<u64> {
    let mut counts = StringMap::new();
    counts.insert(algorithm.to_owned(), count);
    counts
}

#[test]
fn fresh_account() {
    let account = account();
    assert_eq!(account.user_id().as_str(), "@alice:example.org");
    assert_eq!(account.device_id(), "ALICEDEVICE");
    assert_eq!(account.identity_keys().curve25519(), "curve-key");
    assert_eq!(account.identity_keys().ed25519(), "ed-key");
    assert!(!account.shared());
    assert_eq!(account.uploaded_key_count(), 0);
}

#[test]
fn key_count_is_kept_within_bounds() {
    let mut account = account();
    account.update_uploaded_key_count(7);
    assert_eq!(account.uploaded_key_count(), 7);
    account.update_uploaded_key_count(i64::MAX as u64);
    assert_eq!(account.uploaded_key_count(), i64::MAX);
    account.update_uploaded_key_count(i64::MAX as u64 + 1);
    assert_eq!(account.uploaded_key_count(), i64::MAX);
    account.update_uploaded_key_count(u64::MAX);
    assert_eq!(account.uploaded_key_count(), i64::MAX);
}

#[test]
fn one_time_keys_are_topped_up_to_half() {
    let mut account = account();
    assert_eq!(account.generate_one_time_keys(100), Ok(50));
    account.update_uploaded_key_count(20);
    assert_eq!(account.generate_one_time_keys(100), Ok(30));
    account.update_uploaded_key_count(49);
    assert_eq!(account.generate_one_time_keys(100), Ok(1));
    account.update_uploaded_key_count(50);
    assert_eq!(account.generate_one_time_keys(100), Err(()));
    account.update_uploaded_key_count(51);
    assert_eq!(account.generate_one_time_keys(100), Err(()));
    account.update_uploaded_key_count(0);
    assert_eq!(account.generate_one_time_keys(1), Err(()));
    assert_eq!(account.generate_one_time_keys(0), Err(()));
    assert_eq!(account.generate_one_time_keys(3), Ok(1));
}

#[test]
fn uploads_are_due_until_the_server_has_enough() {
    let mut account = account();
    assert!(account.should_upload_keys(0));
    account.update_uploaded_key_count(50);
    assert!(account.should_upload_keys(100));
    account.mark_as_shared();
    assert!(!account.should_upload_keys(100));
    account.update_uploaded_key_count(51);
    assert!(!account.should_upload_keys(100));
    account.update_uploaded_key_count(49);
    assert!(account.should_upload_keys(100));
}

#[test]
fn keys_that_are_uploaded() {
    let mut account = account();
    let keys = account.keys_for_upload(100).unwrap();
    assert!(keys.device_keys);
    assert_eq!(keys.one_time_keys, Some(50));
    account.update_uploaded_key_count(50);
    let keys = account.keys_for_upload(100).unwrap();
    assert!(keys.device_keys);
    assert_eq!(keys.one_time_keys, None);
    account.mark_as_shared();
    assert!(account.keys_for_upload(100).is_none());
    account.update_uploaded_key_count(10);
    let keys = account.keys_for_upload(100).unwrap();
    assert!(!keys.device_keys);
    assert_eq!(keys.one_time_keys, Some(40));
}

#[test]
fn answer_to_an_upload() {
    let mut account = Account { inner: account() };
    account.receive_keys_upload_response(&counts("signed_curve25519", 50));
    assert!(account.shared());
    assert_eq!(account.uploaded_key_count(), 50);
    assert!(account.keys_for_upload(100).is_none());
    account.receive_keys_upload_response(&counts("curve25519", 12));
    assert!(account.shared());
    assert_eq!(account.uploaded_key_count(), 0);
    assert_eq!(account.user_id().as_str(), "@alice:example.org");
}

#[test]
fn counts_of_a_sync() {
    let mut account = Account { inner: account() };
    account.update_uploaded_key_count(&counts("signed_curve25519", 33));
    assert_eq!(account.uploaded_key_count(), 33);
    assert!(!account.shared());
    account.update_uploaded_key_count(&counts("curve25519", 12));
    assert_eq!(account.uploaded_key_count(), 33);
    account.update_uploaded_key_count(&StringMap::new());
    assert_eq!(account.uploaded_key_count(), 33);
}

#[test]
fn pickle_as_text() {
    let pickle = AccountPickle::from("some pickle".to_owned());
    assert_eq!(pickle.as_str(), "some pickle");
    assert_eq!(pickle.clone().as_str(), "some pickle");
}

#[test]
fn pickled_account_is_restored() {
    let mut account = account();
    account.mark_as_shared();
    account.update_uploaded_key_count(5);
    let pickled = account.pickle(AccountPickle::from("pickle".to_owned()));
    assert_eq!(pickled.user_id.as_str(), "@alice:example.org");
    assert_eq!(pickled.device_id, "ALICEDEVICE");
    assert_eq!(pickled.pickle.as_str(), "pickle");
    assert!(pickled.shared);
    assert_eq!(pickled.uploaded_signed_key_count, 5);
    let restored = ReadOnlyAccount::from_pickle(pickled.clone(), Ok(keys())).unwrap();
    assert!(restored == account);
    assert_eq!(restored.user_id().as_str(), "@alice:example.org");
    assert_eq!(restored.device_id(), "ALICEDEVICE");
    assert_eq!(restored.uploaded_key_count(), 5);
    let refused = ReadOnlyAccount::from_pickle(pickled, Err(OlmAccountError::BadAccountKey));
    assert!(matches!(refused, Err(OlmAccountError::BadAccountKey)));
}

#[test]
fn negative_count_stops_uploads() {
    let pickled = PickledAccount {
        user_id: alice(),
        device_id: "ALICEDEVICE".to_owned(),
        pickle: AccountPickle::from("pickle".to_owned()),
        shared: true,
        uploaded_signed_key_count: -1,
    };
    let account = ReadOnlyAccount::from_pickle(pickled, Ok(keys())).unwrap();
    assert_eq!(account.uploaded_key_count(), -1);
    assert!(!account.should_upload_keys(100));
    assert!(!account.should_upload_keys(usize::MAX));
    assert_eq!(account.generate_one_time_keys(usize::MAX), Err(()));
}

#[test]
fn equality_of_accounts() {
    let mut one = account();
    let other = ReadOnlyAccount::new(&UserId::parse("@bob:example.org").unwrap(), "BOB", keys());
    assert!(one == other);
    one.update_uploaded_key_count(10);
    assert!(one == other);
    one.mark_as_shared();
    assert!(one != other);
    let third = ReadOnlyAccount::new(
        &alice(),
        "ALICEDEVICE",
        IdentityKeys::new("curve-key".to_owned(), "other".to_owned()),
    );
    assert!(account() != third);
    assert!(third == third.snapshot());
}

fn settings(algorithm: EventEncryptionAlgorithm) -> EncryptionSettings {
    EncryptionSettings {
        algorithm,
        rotation_period_ms: 1000,
        rotation_period_msgs: 7,
        history_visibility: HistoryVisibility::Shared,
    }
}

#[test]
fn account_stays_shared() {
    let mut account = Account { inner: account() };
    account.update_uploaded_key_count(&counts("signed_curve25519", 4));
    account.inner.update_uploaded_key_count(5);
    assert!(!account.shared());
    account.inner.mark_as_shared();
    account.update_uploaded_key_count(&counts("signed_curve25519", 6));
    account.inner.update_uploaded_key_count(0);
    account.receive_keys_upload_response(&StringMap::new());
    assert!(account.shared());
    assert_eq!(account.uploaded_key_count(), 0);
}

#[test]
fn snapshot_is_not_changed_later() {
    let mut account = account();
    let snapshot = account.snapshot();
    account.mark_as_shared();
    account.update_uploaded_key_count(3);
    assert!(account.shared());
    assert!(!snapshot.shared());
    assert_eq!(snapshot.uploaded_key_count(), 0);
    account.mark_as_shared();
    assert!(account.shared());
    assert_eq!(account.uploaded_key_count(), 3);
}

#[test]
fn group_session_pair() {
    let (outbound, inbound) = account()
        .create_group_session_pair(
            "!room:example.org",
            settings(EventEncryptionAlgorithm::MegolmV1AesSha2),
        )
        .ok()
        .unwrap()
        .created("session-key".to_owned());
    let inbound = inbound.clone();
    assert_eq!(outbound.device_id, "ALICEDEVICE");
    assert_eq!(outbound.room_id, "!room:example.org");
    assert_eq!(outbound.account_identity_keys.ed25519(), "ed-key");
    assert_eq!(outbound.settings.rotation_period_msgs, 7);
    assert_eq!(inbound.sender_key, "curve-key");
    assert_eq!(inbound.signing_key, "ed-key");
    assert_eq!(inbound.room_id, "!room:example.org");
    assert_eq!(inbound.session_key, "session-key");
    assert!(matches!(inbound.history_visibility, Some(HistoryVisibility::Shared)));
}

#[test]
fn group_sessions_need_megolm() {
    for algorithm in vec![
        EventEncryptionAlgorithm::OlmV1Curve25519AesSha2,
        EventEncryptionAlgorithm::Custom("m.other".to_owned()),
    ] {
        assert!(account()
            .create_group_session_pair("!room:example.org", settings(algorithm))
            .is_err());
    }
}
