use matrix_sdk_crypto::account::{Account, ReadOnlyAccount};
use matrix_sdk_crypto::decrypted_event::{EventFields, EventParties};
use matrix_sdk_crypto::decryption::{
    CiphertextInfo, Decryption, EncryptedEventScheme, EncryptedToDeviceEvent, LoadSessions,
    OlmDecryptionInfo, OlmV1Curve25519AesSha2Content, ReceivedMessage,
};
use matrix_sdk_crypto::error::{CryptoStoreError, EventError, OlmError, OlmSessionError};
use matrix_sdk_crypto::identifiers::UserId;
use matrix_sdk_crypto::keys::IdentityKeys;
use matrix_sdk_crypto::session::{OlmMessage, OlmMessageHash, Session, SessionType};
use matrix_sdk_crypto::string_map::StringMap;

fn alice() -> UserId {
    UserId::parse("@alice:example.org").unwrap()
}

fn bob() -> UserId {
    UserId::parse("@bob:example.org").unwrap()
}

/// The account that receives: Alice's.
fn account() -> Account {
    Account {
        inner: ReadOnlyAccount::new(
            &alice(),
            "ALICEDEVICE",
            IdentityKeys::new("alice-curve".to_owned(), "alice-ed".to_owned()),
        ),
    }
}

fn store_error() -> CryptoStoreError {
    CryptoStoreError { message: "disk full".to_owned() }
}

/// An event from Bob with one ciphertext.
fn event(for_key: &str, message_type: u64) -> EncryptedToDeviceEvent {
    let mut ciphertext = StringMap::new();
    ciphertext.insert(for_key.to_owned(), CiphertextInfo { body: "body".to_owned(), message_type });
    EncryptedToDeviceEvent {
        sender: bob(),
        scheme: EncryptedEventScheme::OlmV1Curve25519AesSha2(OlmV1Curve25519AesSha2Content {
            ciphertext,
            sender_key: "sender-key".to_owned(),
        }),
    }
}

fn load(account: &Account, message_type: u64) -> LoadSessions {
    match account.decrypt_to_device_event(&event("alice-curve", message_type)) {
        Decryption::LoadSessions(step) => step,
        _ => panic!("sessions should be loaded"),
    }
}

fn session(id: &str) -> Session {
    let now = std::time::Instant::now();
    account()
        .inner
        .create_inbound_session(&"sender-key".to_owned(), Ok(id.to_owned()), now)
        .unwrap()
}

fn error(state: Decryption) -> OlmError {
    match state {
        Decryption::Finished(Err(error)) => error,
        _ => panic!("decryption should have failed"),
    }
}

fn info(state: Decryption) -> OlmDecryptionInfo {
    match state {
        Decryption::Finished(Ok(info)) => info,
        _ => panic!("decryption should have succeeded"),
    }
}

fn is_wedged(state: Decryption) -> bool {
    matches!(
        error(state),
        OlmError::SessionWedged(user, key) if user.same_as(&bob()) && key == "sender-key"
    )
}

fn is_replayed(state: Decryption) -> bool {
    matches!(
        error(state),
        OlmError::ReplayedMessage(user, key) if user.same_as(&bob()) && key == "sender-key"
    )
}

const PLAINTEXT: &str = "{\"type\":\"m.dummy\",\"content\":{},\"sender\":\"@bob:example.org\",\
     \"recipient\":\"@alice:example.org\",\
     \"recipient_keys\":{\"ed25519\":\"alice-ed\"},\
     \"keys\":{\"ed25519\":\"bob-ed\",\"curve25519\":\"bob-curve\"}}";

#[test]
fn only_olm_is_supported() {
    for scheme in vec![EncryptedEventScheme::MegolmV1AesSha2, EncryptedEventScheme::Unknown] {
        let event = EncryptedToDeviceEvent { sender: bob(), scheme };
        assert!(matches!(
            error(account().decrypt_to_device_event(&event)),
            OlmError::EventError(EventError::UnsupportedAlgorithm)
        ));
    }
}

#[test]
fn ciphertext_for_another_device() {
    assert!(matches!(
        error(account().decrypt_to_device_event(&event("other-curve", 0))),
        OlmError::EventError(EventError::MissingCiphertext)
    ));
}

#[test]
fn unknown_types_of_messages() {
    for message_type in vec![2, 255, 256, 257, u64::MAX] {
        assert!(matches!(
            error(account().decrypt_to_device_event(&event("alice-curve", message_type))),
            OlmError::EventError(EventError::UnsupportedOlmType)
        ));
    }
}

#[test]
fn message_that_is_taken_from_an_event() {
    let step = load(&account(), 0);
    let message = step.message();
    assert!(message.sender.same_as(&bob()));
    assert_eq!(message.sender_key, "sender-key");
    assert!(matches!(&message.message, OlmMessage::PreKey(c) if c == "body"));
    assert_eq!(message.message_hash.sender_key, "sender-key");
    assert_eq!(message.message_hash.hash, "uhfkcCYgiX4EPkEhyvRcP4L/HMBbWK7HyScqf/P2TPA");
    let step = load(&account(), 1);
    assert!(matches!(&step.message().message, OlmMessage::Message(c) if c == "body"));
    assert_eq!(step.message().message_hash.hash, "P+3nmj/RybFJAAmUetzoo9RWWmU8VINcMfdNkvK7Epg");
}

#[test]
fn store_that_cannot_load_sessions() {
    assert!(matches!(
        error(load(&account(), 0).loaded(Err(store_error()))),
        OlmError::Store(e) if e.message == "disk full"
    ));
}

#[test]
fn matching_session_decrypts() {
    let account = account();
    let step = match load(&account, 0).loaded(Ok(Some(3))) {
        Decryption::MatchSession(step) => step,
        _ => panic!("the message should be matched"),
    };
    assert_eq!(step.index(), 0);
    let step = match step.matched(Ok(false)) {
        Decryption::MatchSession(step) => step,
        _ => panic!("the next session should be tried"),
    };
    assert_eq!(step.index(), 1);
    assert_eq!(step.message().sender_key, "sender-key");
    let step = match step.matched(Ok(true)) {
        Decryption::DecryptSession(step) => step,
        _ => panic!("the message should be decrypted"),
    };
    assert_eq!(step.index(), 1);
    assert_eq!(step.message().sender_key, "sender-key");
    let info = info(step.decrypted(&account, Ok((session("second"), PLAINTEXT.to_owned()))));
    assert!(matches!(&info.session, SessionType::Existing(s) if s.session_id == "second"));
    assert_eq!(info.session.clone().session().session_id, "second");
    assert_eq!(info.message_hash.hash, "uhfkcCYgiX4EPkEhyvRcP4L/HMBbWK7HyScqf/P2TPA");
    assert_eq!(info.sender_key, "sender-key");
    assert_eq!(info.signing_key, "bob-ed");
    assert_eq!(
        info.event,
        "{\"type\":\"m.dummy\",\"content\":{},\"sender\":\"@bob:example.org\"}"
    );
    assert!(info.deserialized_event.is_none());
    assert!(info.inbound_group_session.is_none());
}

#[test]
fn cloned_info_is_the_same() {
    let state = received().parsed(
        &account(),
        SessionType::New(session("new")),
        Ok(("event".to_owned(), "key".to_owned())),
    );
    let info = info(state);
    let copy = info.clone();
    assert_eq!(copy.event, info.event);
    assert_eq!(copy.signing_key, info.signing_key);
    assert_eq!(copy.message_hash.hash, info.message_hash.hash);
    assert!(matches!(copy.session, SessionType::New(s) if s.session_id == "new"));
}

#[test]
fn message_that_cannot_be_matched() {
    let step = match load(&account(), 0).loaded(Ok(Some(1))) {
        Decryption::MatchSession(step) => step,
        _ => panic!("the message should be matched"),
    };
    assert!(matches!(
        error(step.matched(Err(OlmSessionError::BadMessageFormat))),
        OlmError::OlmSession(OlmSessionError::BadMessageFormat)
    ));
}

#[test]
fn matching_session_that_does_not_decrypt() {
    for known in vec![false, true] {
        let account = account();
        let step = match load(&account, 0).loaded(Ok(Some(2))) {
            Decryption::MatchSession(step) => step,
            _ => panic!("the message should be matched"),
        };
        let step = match step.matched(Ok(true)) {
            Decryption::DecryptSession(step) => step,
            _ => panic!("the message should be decrypted"),
        };
        let step = match step.decrypted(&account, Err(OlmSessionError::BadMessageMac)) {
            Decryption::CheckReplay(step) => step,
            _ => panic!("the message should be looked up"),
        };
        assert_eq!(step.message().message_hash.sender_key, "sender-key");
        let state = step.checked(Ok(known));
        assert!(if known { is_replayed(state) } else { is_wedged(state) });
    }
}

#[test]
fn normal_message_is_tried_with_every_session() {
    let account = account();
    let mut state = load(&account, 1).loaded(Ok(Some(3)));
    for i in 0..3usize {
        let step = match state {
            Decryption::DecryptSession(step) => step,
            _ => panic!("the message should be decrypted"),
        };
        assert_eq!(step.index(), i);
        state = step.decrypted(&account, Err(OlmSessionError::BadMessageMac));
    }
    let step = match state {
        Decryption::CheckReplay(step) => step,
        _ => panic!("the message should be looked up"),
    };
    assert!(is_wedged(step.checked(Ok(false))));
}

#[test]
fn second_session_decrypts_a_normal_message() {
    let account = account();
    let step = match load(&account, 1).loaded(Ok(Some(2))) {
        Decryption::DecryptSession(step) => step,
        _ => panic!("the message should be decrypted"),
    };
    let step = match step.decrypted(&account, Err(OlmSessionError::BadMessageMac)) {
        Decryption::DecryptSession(step) => step,
        _ => panic!("the next session should be tried"),
    };
    let info = info(step.decrypted(&account, Ok((session("second"), PLAINTEXT.to_owned()))));
    assert!(matches!(info.session, SessionType::Existing(s) if s.session_id == "second"));
}

#[test]
fn normal_message_without_a_session() {
    for sessions in vec![None, Some(0)] {
        for known in vec![false, true] {
            let step = match load(&account(), 1).loaded(Ok(sessions)) {
                Decryption::CheckReplay(step) => step,
                _ => panic!("the message should be looked up"),
            };
            let state = step.checked(Ok(known));
            assert!(if known { is_replayed(state) } else { is_wedged(state) });
        }
    }
}

#[test]
fn store_that_cannot_look_up_a_hash() {
    let step = match load(&account(), 1).loaded(Ok(None)) {
        Decryption::CheckReplay(step) => step,
        _ => panic!("the message should be looked up"),
    };
    assert!(matches!(error(step.checked(Err(store_error()))), OlmError::Store(_)));
}

#[test]
fn new_session_decrypts() {
    let account = account();
    let now = std::time::Instant::now();
    let step = match load(&account, 0).loaded(Ok(None)) {
        Decryption::CreateSession(step) => step,
        _ => panic!("a session should be created"),
    };
    assert_eq!(step.message().sender_key, "sender-key");
    let step = match step.created(&account, Ok("new".to_owned()), now) {
        Decryption::DecryptNew(step) => step,
        _ => panic!("the message should be decrypted"),
    };
    assert_eq!(step.session().session_id, "new");
    assert_eq!(step.session().sender_key, "sender-key");
    assert_eq!(step.session().creation_time, now);
    assert_eq!(step.message().sender_key, "sender-key");
    let session = step.session().clone();
    let info = info(step.decrypted(&account, Ok((session, PLAINTEXT.to_owned()))));
    assert!(matches!(info.session, SessionType::New(s) if s.session_id == "new"));
    assert_eq!(info.signing_key, "bob-ed");
}

#[test]
fn session_that_cannot_be_created() {
    for known in vec![false, true] {
        let account = account();
        let step = match load(&account, 0).loaded(Ok(Some(0))) {
            Decryption::CreateSession(step) => step,
            _ => panic!("a session should be created"),
        };
        let now = std::time::Instant::now();
        let step = match step.created(&account, Err(OlmSessionError::BadMessageKeyId), now) {
            Decryption::CheckReplay(step) => step,
            _ => panic!("the message should be looked up"),
        };
        let state = step.checked(Ok(known));
        assert!(if known { is_replayed(state) } else { is_wedged(state) });
    }
}

#[test]
fn new_session_that_does_not_decrypt() {
    let account = account();
    let step = match load(&account, 0).loaded(Ok(None)) {
        Decryption::CreateSession(step) => step,
        _ => panic!("a session should be created"),
    };
    let step = match step.created(&account, Ok("new".to_owned()), std::time::Instant::now()) {
        Decryption::DecryptNew(step) => step,
        _ => panic!("the message should be decrypted"),
    };
    assert!(matches!(
        error(step.decrypted(&account, Err(OlmSessionError::BadMessageMac))),
        OlmError::OlmSession(OlmSessionError::BadMessageMac)
    ));
}

#[test]
fn refused_event_of_a_new_session() {
    for store_fails in vec![false, true] {
        let account = account();
        let step = match load(&account, 0).loaded(Ok(None)) {
            Decryption::CreateSession(step) => step,
            _ => panic!("a session should be created"),
        };
        let step = match step.created(&account, Ok("new".to_owned()), std::time::Instant::now()) {
            Decryption::DecryptNew(step) => step,
            _ => panic!("the message should be decrypted"),
        };
        let step = match step.decrypted(&account, Ok((session("new"), "{}".to_owned()))) {
            Decryption::SaveSession(step) => step,
            _ => panic!("the session should be saved"),
        };
        assert!(step.changes().account.as_ref().unwrap() == &account.inner);
        assert_eq!(step.changes().sessions.len(), 1);
        assert_eq!(step.changes().sessions[0].session_id, "new");
        let saved = if store_fails { Err(store_error()) } else { Ok(()) };
        match error(step.saved(saved)) {
            OlmError::Store(_) => assert!(store_fails),
            OlmError::EventError(EventError::MissingField(name)) => {
                assert!(!store_fails);
                assert_eq!(name, "sender");
            }
            _ => panic!("another error is due"),
        }
    }
}

#[test]
fn refused_event_of_an_existing_session() {
    let account = account();
    let step = match load(&account, 1).loaded(Ok(Some(1))) {
        Decryption::DecryptSession(step) => step,
        _ => panic!("the message should be decrypted"),
    };
    let step = match step.decrypted(&account, Ok((session("old"), "no json".to_owned()))) {
        Decryption::SaveSession(step) => step,
        _ => panic!("the session should be saved"),
    };
    assert!(step.changes().account.is_none());
    assert_eq!(step.changes().sessions.len(), 1);
    assert_eq!(step.changes().sessions[0].session_id, "old");
    assert!(matches!(error(step.saved(Ok(()))), OlmError::JsonError(_)));
}

fn parse(plaintext: &str) -> Result<(String, String), OlmError> {
    account().inner.parse_decrypted_to_device_event(&bob(), plaintext)
}

/// The plaintext without a field, or with another value in it.
fn changed(field: &str, value: Option<&str>) -> String {
    let mut plaintext: serde_json::Value = serde_json::from_str(PLAINTEXT).unwrap();
    let object = plaintext.as_object_mut().unwrap();
    match value {
        Some(value) => {
            object.insert(field.to_owned(), serde_json::from_str(value).unwrap());
        }
        None => {
            object.remove(field);
        }
    }
    plaintext.to_string()
}

#[test]
fn event_that_is_meant_for_us() {
    let (event, signing_key) = parse(PLAINTEXT).unwrap();
    assert_eq!(event, "{\"type\":\"m.dummy\",\"content\":{},\"sender\":\"@bob:example.org\"}");
    assert_eq!(signing_key, "bob-ed");
}

#[test]
fn fields_that_are_missing() {
    for field in vec!["sender", "recipient", "recipient_keys", "keys"] {
        assert!(matches!(
            parse(&changed(field, None)),
            Err(OlmError::EventError(EventError::MissingField(name))) if name == field
        ));
    }
    assert!(matches!(
        parse("[]"),
        Err(OlmError::EventError(EventError::MissingField(name))) if name == "sender"
    ));
}

#[test]
fn fields_that_are_malformed() {
    assert!(matches!(parse("{"), Err(OlmError::JsonError(_))));
    for field in vec!["sender", "recipient"] {
        assert!(matches!(parse(&changed(field, Some("1"))), Err(OlmError::JsonError(_))));
        assert!(matches!(parse(&changed(field, Some("\"bob\""))), Err(OlmError::JsonError(_))));
    }
    for field in vec!["recipient_keys", "keys"] {
        assert!(matches!(parse(&changed(field, Some("[]"))), Err(OlmError::JsonError(_))));
        assert!(matches!(
            parse(&changed(field, Some("{\"ed25519\":1}"))),
            Err(OlmError::JsonError(_))
        ));
    }
    assert!(matches!(parse(&changed("type", None)), Err(OlmError::JsonError(_))));
    assert!(matches!(parse(&changed("content", None)), Err(OlmError::JsonError(_))));
}

#[test]
fn event_of_another_sender_or_recipient() {
    for field in vec!["sender", "recipient"] {
        assert!(matches!(
            parse(&changed(field, Some("\"@mallory:example.org\""))),
            Err(OlmError::EventError(EventError::MissmatchedSender))
        ));
    }
}

#[test]
fn event_for_another_device() {
    assert!(matches!(
        parse(&changed("recipient_keys", Some("{\"ed25519\":\"other\"}"))),
        Err(OlmError::EventError(EventError::MissmatchedKeys))
    ));
}

#[test]
fn event_without_signing_keys() {
    for field in vec!["recipient_keys", "keys"] {
        assert!(matches!(
            parse(&changed(field, Some("{\"curve25519\":\"x\"}"))),
            Err(OlmError::EventError(EventError::MissingSigningKey))
        ));
    }
}

#[test]
fn parties_are_checked_in_order() {
    let table = |pairs: Vec<(&str, &str)>| {
        let mut table = StringMap::new();
        for (name, key) in pairs {
            table.insert(name.to_owned(), key.to_owned());
        }
        table
    };
    let parties = |sender: UserId, recipient: UserId, ours: Vec<(&str, &str)>, theirs| EventParties {
        sender,
        recipient,
        recipient_keys: table(ours),
        keys: table(theirs),
    };
    let account = account();
    let check = |parties: EventParties| account.check_event_parties(&bob(), &parties);
    let right = vec![("ed25519", "alice-ed")];
    let theirs = vec![("ed25519", "bob-ed")];
    assert_eq!(check(parties(bob(), alice(), right.clone(), theirs.clone())).unwrap(), "bob-ed");
    assert!(matches!(
        check(parties(alice(), alice(), vec![], vec![])),
        Err(EventError::MissmatchedSender)
    ));
    assert!(matches!(
        check(parties(bob(), bob(), right.clone(), theirs.clone())),
        Err(EventError::MissmatchedSender)
    ));
    assert!(matches!(
        check(parties(bob(), alice(), vec![], theirs.clone())),
        Err(EventError::MissingSigningKey)
    ));
    assert!(matches!(
        check(parties(bob(), alice(), vec![("ed25519", "x")], vec![])),
        Err(EventError::MissmatchedKeys)
    ));
    assert!(matches!(
        check(parties(bob(), alice(), right, vec![])),
        Err(EventError::MissingSigningKey)
    ));
}

fn json_error() -> serde_json::Error {
    serde_json::from_str::<serde_json::Value>("{").unwrap_err()
}

fn key_table(key: &str) -> StringMap<String> {
    let mut table = StringMap::new();
    table.insert("ed25519".to_owned(), key.to_owned());
    table
}

fn fields() -> EventFields {
    EventFields {
        sender: Some(Ok(bob())),
        recipient: Some(Ok(alice())),
        recipient_keys: Some(Ok(key_table("alice-ed"))),
        keys: Some(Ok(key_table("bob-ed"))),
    }
}

fn accept(
    fields: EventFields,
    event: Result<String, serde_json::Error>,
) -> Result<(String, String), OlmError> {
    account().accept_event(&bob(), fields, event)
}

fn is_missing(result: Result<(String, String), OlmError>, field: &str) -> bool {
    matches!(
        result,
        Err(OlmError::EventError(EventError::MissingField(name))) if name == field
    )
}

#[test]
fn fields_are_checked_in_order() {
    let event = || Ok("event".to_owned());
    let (text, key) = accept(fields(), event()).unwrap();
    assert_eq!(text, "event");
    assert_eq!(key, "bob-ed");

    let mut missing = fields();
    missing.keys = None;
    assert!(is_missing(accept(missing, event()), "keys"));
    let mut missing = fields();
    missing.recipient_keys = None;
    missing.keys = Some(Err(json_error()));
    assert!(is_missing(accept(missing, event()), "recipient_keys"));
    let mut missing = fields();
    missing.recipient = None;
    missing.recipient_keys = None;
    assert!(is_missing(accept(missing, event()), "recipient"));
    let mut missing = fields();
    missing.sender = None;
    missing.recipient = Some(Err(json_error()));
    assert!(is_missing(accept(missing, event()), "sender"));

    let mut malformed = fields();
    malformed.sender = Some(Err(json_error()));
    malformed.recipient = None;
    assert!(matches!(accept(malformed, event()), Err(OlmError::JsonError(_))));
    let mut malformed = fields();
    malformed.keys = Some(Err(json_error()));
    assert!(matches!(accept(malformed, event()), Err(OlmError::JsonError(_))));

    let other_error = || serde_json::from_str::<serde_json::Value>("nul").unwrap_err();
    assert_ne!(other_error().to_string(), json_error().to_string());
    let mut malformed = fields();
    malformed.recipient_keys = Some(Err(json_error()));
    malformed.keys = Some(Err(other_error()));
    assert!(matches!(
        accept(malformed, Err(other_error())),
        Err(OlmError::JsonError(e)) if e.to_string() == json_error().to_string()
    ));
    assert!(matches!(
        accept(fields(), Err(other_error())),
        Err(OlmError::JsonError(e)) if e.to_string() == other_error().to_string()
    ));

    let mut other = fields();
    other.recipient = Some(Ok(bob()));
    assert!(matches!(
        accept(other, Err(json_error())),
        Err(OlmError::EventError(EventError::MissmatchedSender))
    ));
    assert!(matches!(accept(fields(), Err(json_error())), Err(OlmError::JsonError(_))));
}

fn received() -> ReceivedMessage {
    ReceivedMessage {
        sender: bob(),
        sender_key: "sender-key".to_owned(),
        message: OlmMessage::PreKey("body".to_owned()),
        message_hash: OlmMessageHash { sender_key: "sender-key".to_owned(), hash: "hash".to_owned() },
    }
}

#[test]
fn text_that_was_read() {
    let state = received().parsed(
        &account(),
        SessionType::New(session("new")),
        Ok(("event".to_owned(), "key".to_owned())),
    );
    let info = info(state);
    assert_eq!(info.event, "event");
    assert_eq!(info.signing_key, "key");
    assert_eq!(info.message_hash.hash, "hash");
    assert!(matches!(info.session, SessionType::New(s) if s.session_id == "new"));
}

#[test]
fn text_that_was_refused() {
    for new in vec![false, true] {
        let used = if new {
            SessionType::New(session("used"))
        } else {
            SessionType::Existing(session("used"))
        };
        let refused = Err(OlmError::EventError(EventError::MissmatchedKeys));
        let step = match received().parsed(&account(), used, refused) {
            Decryption::SaveSession(step) => step,
            _ => panic!("the session should be saved"),
        };
        assert_eq!(step.changes().account.is_some(), new);
        assert_eq!(step.changes().sessions[0].session_id, "used");
        assert!(matches!(
            error(step.saved(Ok(()))),
            OlmError::EventError(EventError::MissmatchedKeys)
        ));
    }
}
