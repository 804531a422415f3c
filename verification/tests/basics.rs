use matrix_sdk_crypto::identifiers::{
    device_key_id, DeviceKeyAlgorithm, EventEncryptionAlgorithm, UserId,
};
use matrix_sdk_crypto::session::{OlmMessage, OlmMessageHash};
use matrix_sdk_crypto::string_map::{key_order, KeyOrder, StringMap};
use matrix_sdk_crypto::utilities::encode;

#[test]
fn base64_of_known_bytes() {
    assert_eq!(encode(b""), "");
    assert_eq!(encode(b"f"), "Zg");
    assert_eq!(encode(b"fo"), "Zm8");
    assert_eq!(encode(b"foo"), "Zm9v");
    assert_eq!(encode(b"foob"), "Zm9vYg");
    assert_eq!(encode(b"fooba"), "Zm9vYmE");
    assert_eq!(encode(b"foobar"), "Zm9vYmFy");
    assert_eq!(encode(&[0xfb, 0xff]), "+/8");
    assert_eq!(encode(&[0, 0, 0]), "AAAA");
    assert_eq!(encode(&[255, 255, 255]), "////");
}

#[test]
fn base64_tells_bytes_apart() {
    let inputs: Vec<Vec<u8>> =
        vec![vec![], vec![0], vec![0, 0], vec![0, 0, 0], vec![1], vec![0, 1], vec![0, 0, 1], vec![16]];
    for a in &inputs {
        for b in &inputs {
            assert_eq!(encode(a) == encode(b), a == b);
        }
    }
}

#[test]
fn hash_of_a_message() {
    let hash = OlmMessageHash::new(&"sender-key".to_owned(), 0, &"body".to_owned());
    assert_eq!(hash.sender_key, "sender-key");
    assert_eq!(hash.hash, "uhfkcCYgiX4EPkEhyvRcP4L/HMBbWK7HyScqf/P2TPA");
    let hash = OlmMessageHash::new(&"sender-key".to_owned(), 1, &"body".to_owned());
    assert_eq!(hash.hash, "P+3nmj/RybFJAAmUetzoo9RWWmU8VINcMfdNkvK7Epg");
    let hash = OlmMessageHash::new(&"k\u{e9}y".to_owned(), 1, &"".to_owned());
    assert_eq!(hash.hash, "bgRG6RyVHlDcKdvHbnTInBBQ+Agg2GX4zJIDcyKoR0c");
}

#[test]
fn types_of_olm_messages() {
    let prekey = OlmMessage::from_type_and_ciphertext(0, "a".to_owned());
    assert!(matches!(prekey, Ok(OlmMessage::PreKey(c)) if c == "a"));
    let message = OlmMessage::from_type_and_ciphertext(1, "b".to_owned());
    assert!(matches!(message, Ok(OlmMessage::Message(c)) if c == "b"));
    assert!(OlmMessage::from_type_and_ciphertext(2, "c".to_owned()).is_err());
}

#[test]
fn user_ids() {
    let alice = UserId::parse("@alice:example.org").unwrap();
    assert_eq!(alice.as_str(), "@alice:example.org");
    assert!(alice.same_as(&alice.clone()));
    assert!(!alice.same_as(&UserId::parse("@bob:example.org").unwrap()));
    assert!(UserId::parse("alice:example.org").is_none());
    assert!(UserId::parse("@alice").is_none());
    assert!(UserId::parse("").is_none());
}

#[test]
fn key_ids() {
    assert_eq!(device_key_id(DeviceKeyAlgorithm::Ed25519, "DEVICE"), "ed25519:DEVICE");
    assert_eq!(device_key_id(DeviceKeyAlgorithm::Curve25519, "DEVICE"), "curve25519:DEVICE");
    assert_eq!(
        device_key_id(DeviceKeyAlgorithm::SignedCurve25519, "AAAAAQ"),
        "signed_curve25519:AAAAAQ"
    );
    assert_eq!(device_key_id(DeviceKeyAlgorithm::Ed25519, ""), "ed25519:");
    assert_ne!(
        device_key_id(DeviceKeyAlgorithm::Ed25519, "A"),
        device_key_id(DeviceKeyAlgorithm::Ed25519, "B")
    );
}

#[test]
fn names_of_algorithms() {
    assert_eq!(
        EventEncryptionAlgorithm::OlmV1Curve25519AesSha2.as_str(),
        "m.olm.v1.curve25519-aes-sha2"
    );
    assert_eq!(EventEncryptionAlgorithm::MegolmV1AesSha2.as_str(), "m.megolm.v1.aes-sha2");
    assert_eq!(EventEncryptionAlgorithm::Custom("x".to_owned()).clone().as_str(), "x");
}

#[test]
fn key_order_is_that_of_strings() {
    let keys = ["", "a", "aa", "ab", "b", "\u{e9}", "\u{ffff}", "\u{10000}", "ed25519:A", "ed25519:B"];
    for a in &keys {
        for b in &keys {
            let order = match key_order(a, b) {
                KeyOrder::Less => std::cmp::Ordering::Less,
                KeyOrder::Equal => std::cmp::Ordering::Equal,
                KeyOrder::Greater => std::cmp::Ordering::Greater,
            };
            assert_eq!(order, a.cmp(b));
        }
    }
}

#[test]
fn map_is_walked_in_key_order() {
    let mut map: StringMap<u64> = StringMap::new();
    assert!(map.first().is_none());
    map.insert("b".to_owned(), 1);
    map.insert("c".to_owned(), 2);
    map.insert("a".to_owned(), 3);
    map.insert("b".to_owned(), 4);
    assert_eq!(map.len(), 3);
    assert_eq!(map.key_at(0), "a");
    assert_eq!(map.key_at(1), "b");
    assert_eq!(map.key_at(2), "c");
    assert_eq!(*map.value_at(1), 4);
    assert_eq!(map.first(), Some(&3));
    assert_eq!(map.get("c"), Some(&2));
    assert_eq!(map.get("d"), None);
}
