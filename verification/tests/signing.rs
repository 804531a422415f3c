use matrix_sdk_crypto::account::ReadOnlyAccount;
use matrix_sdk_crypto::error::{OlmSessionError, SessionCreationError, SignatureError};
use matrix_sdk_crypto::identifiers::{DeviceKeyAlgorithm, EventEncryptionAlgorithm, UserId};
use matrix_sdk_crypto::keys::{IdentityKeys, OneTimeKey, ReadOnlyDevice, SignedKey};
use matrix_sdk_crypto::signing::{
    one_time_key_payload, one_time_key_payloads, signing_payload, NotCanonical,
};
use matrix_sdk_crypto::string_map::StringMap;

fn account() -> ReadOnlyAccount {
    ReadOnlyAccount::new(
        &UserId::parse("@alice:example.org").unwrap(),
        "ALICEDEVICE",
        IdentityKeys::new("curve-key".to_owned(), "ed-key".to_owned()),
    )
}

fn bob() -> ReadOnlyAccount {
    ReadOnlyAccount::new(
        &UserId::parse("@bob:example.org").unwrap(),
        "BOBDEVICE",
        IdentityKeys::new("bob-curve".to_owned(), "bob-ed".to_owned()),
    )
}

fn json(text: &str) -> serde_json::Value {
    serde_json::from_str(text).unwrap()
}

#[test]
fn canonical_form_is_signed() {
    assert_eq!(
        signing_payload(json("{ \"b\": [1, \"x\"], \"a\": null }")),
        Ok("{\"a\":null,\"b\":[1,\"x\"]}".to_owned())
    );
    assert_eq!(signing_payload(json("{\"a\": 1.5}")), Err(NotCanonical));
    assert_eq!(signing_payload(json("[9007199254740992]")), Err(NotCanonical));
}

#[test]
fn unsigned_device_keys() {
    let keys = account().unsigned_device_keys();
    assert_eq!(keys.user_id.as_str(), "@alice:example.org");
    assert_eq!(keys.device_id, "ALICEDEVICE");
    assert_eq!(keys.algorithms.len(), 2);
    assert!(matches!(keys.algorithms[0], EventEncryptionAlgorithm::OlmV1Curve25519AesSha2));
    assert!(matches!(keys.algorithms[1], EventEncryptionAlgorithm::MegolmV1AesSha2));
    assert_eq!(keys.algorithms[0].as_str(), "m.olm.v1.curve25519-aes-sha2");
    assert_eq!(keys.algorithms[1].as_str(), "m.megolm.v1.aes-sha2");
    assert_eq!(keys.keys.len(), 2);
    assert_eq!(keys.keys.get("curve25519:ALICEDEVICE").unwrap(), "curve-key");
    assert_eq!(keys.keys.get("ed25519:ALICEDEVICE").unwrap(), "ed-key");
    assert_eq!(keys.signatures.len(), 0);
}

#[test]
fn signed_device_keys() {
    let account = account();
    assert_eq!(
        account.device_keys_payload(),
        "{\"algorithms\":[\"m.olm.v1.curve25519-aes-sha2\",\"m.megolm.v1.aes-sha2\"],\
         \"device_id\":\"ALICEDEVICE\",\
         \"keys\":{\"curve25519:ALICEDEVICE\":\"curve-key\",\"ed25519:ALICEDEVICE\":\"ed-key\"},\
         \"user_id\":\"@alice:example.org\"}"
    );
    let keys = account.device_keys("signature".to_owned());
    assert_eq!(keys.signing_payload(), account.device_keys_payload());
    assert_eq!(keys.signatures.len(), 1);
    let by_key = keys.signatures.get("@alice:example.org").unwrap();
    assert_eq!(by_key.len(), 1);
    assert_eq!(by_key.get("ed25519:ALICEDEVICE").unwrap(), "signature");
}

#[test]
fn payload_of_a_one_time_key() {
    assert_eq!(one_time_key_payload("abc"), "{\"key\":\"abc\"}");
    assert_eq!(one_time_key_payload("a\"b"), "{\"key\":\"a\\\"b\"}");
    assert_eq!(
        one_time_key_payload("\\ / \u{8}\t\n\u{c}\r \u{0}\u{1f} \u{7f}\u{e9}"),
        "{\"key\":\"\\\\ / \\b\\t\\n\\f\\r \\u0000\\u001f \u{7f}\u{e9}\"}"
    );
}

#[test]
fn signed_one_time_keys() {
    let mut keys = StringMap::new();
    keys.insert("BBB".to_owned(), "key-b".to_owned());
    keys.insert("AAA".to_owned(), "key-a".to_owned());
    let payloads = one_time_key_payloads(&keys);
    assert_eq!(payloads, vec!["{\"key\":\"key-a\"}".to_owned(), "{\"key\":\"key-b\"}".to_owned()]);
    let signed = account()
        .signed_one_time_keys_helper(&keys, vec!["sig-a".to_owned(), "sig-b".to_owned()]);
    assert_eq!(signed.len(), 2);
    for (name, key, signature) in vec![("AAA", "key-a", "sig-a"), ("BBB", "key-b", "sig-b")] {
        match signed.get(&format!("signed_curve25519:{}", name)) {
            Some(OneTimeKey::SignedKey(signed)) => {
                assert_eq!(signed.key, key);
                assert_eq!(signed.signatures.len(), 1);
                let by_key = signed.signatures.get("@alice:example.org").unwrap();
                assert_eq!(by_key.len(), 1);
                assert_eq!(by_key.get("ed25519:ALICEDEVICE").unwrap(), signature);
            }
            _ => panic!("no signed key"),
        }
    }
}

#[test]
fn no_one_time_keys_to_sign() {
    let keys = StringMap::new();
    assert!(one_time_key_payloads(&keys).is_empty());
    assert_eq!(account().signed_one_time_keys_helper(&keys, vec![]).len(), 0);
}

fn key_map(keys: Vec<(&str, OneTimeKey)>) -> StringMap<OneTimeKey> {
    let mut map = StringMap::new();
    for (id, key) in keys {
        map.insert(id.to_owned(), key);
    }
    map
}

fn signed(key: &str) -> OneTimeKey {
    OneTimeKey::SignedKey(SignedKey { key: key.to_owned(), signatures: StringMap::new() })
}

fn is_bob(user: &UserId, device: &str) -> bool {
    user.as_str() == "@bob:example.org" && device == "BOBDEVICE"
}

#[test]
fn device_of_an_account() {
    let device = ReadOnlyDevice::from_account(&bob());
    assert!(is_bob(device.user_id(), device.device_id()));
    assert_eq!(device.keys().len(), 2);
    assert_eq!(device.get_key(DeviceKeyAlgorithm::Curve25519).unwrap(), "bob-curve");
    assert_eq!(device.get_key(DeviceKeyAlgorithm::Ed25519).unwrap(), "bob-ed");
    assert!(device.get_key(DeviceKeyAlgorithm::SignedCurve25519).is_none());
}

#[test]
fn outbound_session() {
    let keys = key_map(vec![
        ("signed_curve25519:B", OneTimeKey::Unknown),
        ("signed_curve25519:A", signed("one-time")),
    ]);
    let device = ReadOnlyDevice::from_account(&bob());
    let step = account().create_outbound_session(device, &keys).ok().unwrap();
    assert!(is_bob(step.device().user_id(), step.device().device_id()));
    assert_eq!(step.key().key, "one-time");
    let step = step.verified(Ok(())).ok().unwrap();
    assert_eq!(step.identity_key(), "bob-curve");
    assert_eq!(step.one_time_key(), "one-time");
    let now = std::time::Instant::now();
    let session = step.created(&account(), Ok("session-id".to_owned()), now).unwrap();
    assert_eq!(session.user_id.as_str(), "@alice:example.org");
    assert_eq!(session.device_id, "ALICEDEVICE");
    assert_eq!(session.our_identity_keys.curve25519(), "curve-key");
    assert_eq!(session.session_id, "session-id");
    assert_eq!(session.sender_key, "bob-curve");
    assert_eq!(session.creation_time, now);
    assert_eq!(session.last_use_time, now);
}

#[test]
fn outbound_session_needs_a_signed_key() {
    let device = || ReadOnlyDevice::from_account(&bob());
    let keys = key_map(vec![]);
    assert!(matches!(
        account().create_outbound_session(device(), &keys).err(),
        Some(SessionCreationError::OneTimeKeyMissing(u, d)) if is_bob(&u, &d)
    ));
    let keys = key_map(vec![("curve25519:A", OneTimeKey::Key("key".to_owned()))]);
    assert!(matches!(
        account().create_outbound_session(device(), &keys).err(),
        Some(SessionCreationError::OneTimeKeyNotSigned(u, d)) if is_bob(&u, &d)
    ));
    let keys = key_map(vec![("a:A", OneTimeKey::Unknown), ("b:B", signed("key"))]);
    assert!(matches!(
        account().create_outbound_session(device(), &keys).err(),
        Some(SessionCreationError::OneTimeKeyUnknown(u, d)) if is_bob(&u, &d)
    ));
}

#[test]
fn outbound_session_needs_a_valid_signature() {
    let keys = key_map(vec![("signed_curve25519:A", signed("key"))]);
    let device = ReadOnlyDevice::from_account(&bob());
    let step = account().create_outbound_session(device, &keys).ok().unwrap();
    assert!(matches!(
        step.verified(Err(SignatureError::VerificationError)).err(),
        Some(SessionCreationError::InvalidSignature(u, d, SignatureError::VerificationError))
            if is_bob(&u, &d)
    ));
}

#[test]
fn outbound_session_needs_a_curve_key() {
    let keys = key_map(vec![("signed_curve25519:A", signed("key"))]);
    let mut device_keys = StringMap::new();
    device_keys.insert("ed25519:BOBDEVICE".to_owned(), "bob-ed".to_owned());
    device_keys.insert("curve25519:OTHER".to_owned(), "other".to_owned());
    let device = ReadOnlyDevice::new(
        UserId::parse("@bob:example.org").unwrap(),
        "BOBDEVICE".to_owned(),
        device_keys,
    );
    let step = account().create_outbound_session(device, &keys).ok().unwrap();
    assert!(matches!(
        step.verified(Ok(())).err(),
        Some(SessionCreationError::DeviceMissingCurveKey(u, d)) if is_bob(&u, &d)
    ));
}

#[test]
fn outbound_session_that_olm_refuses() {
    let keys = key_map(vec![("signed_curve25519:A", signed("key"))]);
    let device = ReadOnlyDevice::from_account(&bob());
    let step = account().create_outbound_session(device, &keys).ok().unwrap();
    let step = step.verified(Ok(())).ok().unwrap();
    let created = step.created(
        &account(),
        Err(OlmSessionError::InvalidBase64),
        std::time::Instant::now(),
    );
    assert!(matches!(
        created.err(),
        Some(SessionCreationError::OlmError(u, d, OlmSessionError::InvalidBase64)) if is_bob(&u, &d)
    ));
}

#[test]
fn sessions_of_two_accounts_belong_together() {
    let (ours, theirs) = (account(), bob());
    let one_time_keys = {
        let mut keys = StringMap::new();
        keys.insert("AAA".to_owned(), "one-time".to_owned());
        theirs.signed_one_time_keys_helper(&keys, vec!["sig".to_owned()])
    };
    let now = std::time::Instant::now();
    let our_session = ours
        .create_outbound_session(ReadOnlyDevice::from_account(&theirs), &one_time_keys)
        .ok()
        .unwrap()
        .verified(Ok(()))
        .ok()
        .unwrap()
        .created(&ours, Ok("id".to_owned()), now)
        .unwrap();
    let our_device = ReadOnlyDevice::from_account(&ours);
    let their_session = theirs
        .create_inbound_session(
            our_device.get_key(DeviceKeyAlgorithm::Curve25519).unwrap(),
            Ok("id".to_owned()),
            now,
        )
        .unwrap();
    assert_eq!(&our_session.sender_key, theirs.identity_keys().curve25519());
    assert_eq!(&their_session.sender_key, ours.identity_keys().curve25519());
    let refused = theirs.create_inbound_session(
        &"key".to_owned(),
        Err(OlmSessionError::BadMessageKeyId),
        now,
    );
    assert!(matches!(refused, Err(OlmSessionError::BadMessageKeyId)));
}

#[test]
fn signature_that_is_verified() {
    let mut one_time = StringMap::new();
    one_time.insert("AAA".to_owned(), "one-time".to_owned());
    let keys = bob().signed_one_time_keys_helper(&one_time, vec!["sig".to_owned()]);
    let step = account()
        .create_outbound_session(ReadOnlyDevice::from_account(&bob()), &keys)
        .ok()
        .unwrap();
    let signature = step.signature().ok().unwrap();
    assert_eq!(signature.signing_key, "bob-ed");
    assert_eq!(signature.text, one_time_key_payloads(&one_time)[0]);
    assert_eq!(signature.text, "{\"key\":\"one-time\"}");
    assert_eq!(signature.signature, "sig");
}

#[test]
fn one_time_key_of_another_device() {
    let mut one_time = StringMap::new();
    one_time.insert("AAA".to_owned(), "one-time".to_owned());
    let keys = bob().signed_one_time_keys_helper(&one_time, vec!["sig".to_owned()]);
    let carol = ReadOnlyAccount::new(
        &UserId::parse("@carol:example.org").unwrap(),
        "CAROLDEVICE",
        IdentityKeys::new("carol-curve".to_owned(), "carol-ed".to_owned()),
    );
    let step = account()
        .create_outbound_session(ReadOnlyDevice::from_account(&carol), &keys)
        .ok()
        .unwrap();
    let error = step.signature().err().unwrap();
    assert_eq!(error, SignatureError::NoSignatureFound);
    assert!(matches!(
        step.verified(Err(error)).err(),
        Some(SessionCreationError::InvalidSignature(u, d, SignatureError::NoSignatureFound))
            if u.as_str() == "@carol:example.org" && d == "CAROLDEVICE"
    ));
}

#[test]
fn device_without_a_signing_key() {
    let keys = key_map(vec![("signed_curve25519:A", signed("key"))]);
    let device = ReadOnlyDevice::new(
        UserId::parse("@bob:example.org").unwrap(),
        "BOBDEVICE".to_owned(),
        StringMap::new(),
    );
    let step = account().create_outbound_session(device, &keys).ok().unwrap();
    assert_eq!(step.signature().err(), Some(SignatureError::MissingSigningKey));
}

#[test]
fn signing_twice_gives_the_same_keys() {
    let mut one_time = StringMap::new();
    one_time.insert("AAA".to_owned(), "one-time".to_owned());
    let sign = || bob().signed_one_time_keys_helper(&one_time, vec!["sig".to_owned()]);
    let (one, other) = (sign(), sign());
    assert_eq!(one.len(), other.len());
    assert_eq!(one.key_at(0), other.key_at(0));
    match (one.value_at(0), other.value_at(0)) {
        (OneTimeKey::SignedKey(a), OneTimeKey::SignedKey(b)) => {
            assert_eq!(a.key, b.key);
            let signature = |key: &SignedKey| {
                key.signatures.get("@bob:example.org").unwrap().get("ed25519:BOBDEVICE").cloned()
            };
            assert_eq!(signature(a), Some("sig".to_owned()));
            assert_eq!(signature(a), signature(b));
        }
        _ => panic!("no signed key"),
    }
}
