//! What holds of messages and their hashes, and of the sessions that are
//! created.
use vstd::prelude::*;
use vstd::utf8::*;

use crate::account::AccountView;
use crate::error::{
    CryptoStoreError, EventError, EventErrorView, OlmError, OlmErrorView, OlmSessionError,
    SessionCreationError, SessionCreationErrorView, SignatureError,
};
use crate::group_session::{
    EncryptionSettings, InboundGroupSession, OutboundGroupSession, OutboundGroupSessionView,
};
use crate::identifiers::UserId;
use crate::json::json_error_text;
use crate::key_laws::{lemma_key_id_text, lemma_keys_in_order, lemma_unsigned_device_keys};
use crate::keys::{OneTimeKey, OneTimeKeyView, ReadOnlyDeviceView, SignedKeyView};
use crate::session::{
    hashed_bytes, message_hash, olm_message, OlmMessage, OlmMessageHash, OlmMessageView, Session, SessionType,
    SessionTypeView,
};
use crate::session_creation::{first_key, identity_key, signature_by, signed_key};
use crate::string_map::{in_key_order, key_less, StringMap};
use crate::utilities::{base64, base64_alphabet, base64_len, sextet, sha256_digest};

verus! {

/// Base64 writes every six bits as one character, the first ones first, and
/// fills up the last character with zeros. From the characters all bytes can be
/// read again.
pub proof fn lemma_base64_text(bytes: Seq<u8>)
    ensures
        ({
            let text = base64(bytes);
            &&& 4 * bytes.len() <= 3 * text.len() < 4 * bytes.len() + 3
            &&& exists|digits: Seq<int>|
                {
                    &&& #[trigger] digits.len() == text.len()
                    &&& forall|j: int| 0 <= j < digits.len() ==> 0 <= #[trigger] digits[j] < 64
                    &&& forall|j: int|
                        0 <= j < digits.len() && #[trigger] digits[j] < 26 ==> text[j] as int
                            == 'A' as int + digits[j]
                    &&& forall|j: int|
                        0 <= j < digits.len() && 26 <= #[trigger] digits[j] < 52 ==> text[j] as int
                            == 'a' as int + (digits[j] - 26)
                    &&& forall|j: int|
                        0 <= j < digits.len() && 52 <= #[trigger] digits[j] < 62 ==> text[j] as int
                            == '0' as int + (digits[j] - 52)
                    &&& forall|j: int|
                        0 <= j < digits.len() && #[trigger] digits[j] == 62 ==> text[j] == '+'
                    &&& forall|j: int|
                        0 <= j < digits.len() && #[trigger] digits[j] == 63 ==> text[j] == '/'
                    &&& forall|i: int|
                        0 <= i < bytes.len() && i % 3 == 0 ==> #[trigger] bytes[i] == digits[4 * (i
                            / 3)] * 4 + digits[4 * (i / 3) + 1] / 16
                    &&& forall|i: int|
                        0 <= i < bytes.len() && i % 3 == 1 ==> #[trigger] bytes[i] == (digits[4
                            * (i / 3) + 1] % 16) * 16 + digits[4 * (i / 3) + 2] / 4
                    &&& forall|i: int|
                        0 <= i < bytes.len() && i % 3 == 2 ==> #[trigger] bytes[i] == (digits[4
                            * (i / 3) + 2] % 4) * 64 + digits[4 * (i / 3) + 3]
                    &&& bytes.len() % 3 == 1 ==> digits.last() % 16 == 0
                    &&& bytes.len() % 3 == 2 ==> digits.last() % 4 == 0
                }
        }),
{
    let text = base64(bytes);
    let n = bytes.len() as int;
    let digits = Seq::new(text.len(), |j: int| sextet(bytes, j));
    assert(text.len() == base64_len(bytes.len()));
    assert forall|j: int| 0 <= j < digits.len() implies digit_is_written(
        #[trigger] digits[j],
        text[j],
    ) by {
        lemma_digit_is_written(bytes, j);
    }
    assert forall|i: int| 0 <= i < n implies byte_is_read(#[trigger] bytes[i], digits, i) by {
        lemma_byte_is_read(bytes, i);
        assert(4 * (i / 3) + i % 3 + 1 < text.len());
    }
    lemma_last_digit(bytes);
    assert(digits.len() == text.len());
}

/// A digit and its character.
spec fn digit_is_written(digit: int, c: char) -> bool {
    &&& 0 <= digit < 64
    &&& digit < 26 ==> c as int == 'A' as int + digit
    &&& 26 <= digit < 52 ==> c as int == 'a' as int + (digit - 26)
    &&& 52 <= digit < 62 ==> c as int == '0' as int + (digit - 52)
    &&& digit == 62 ==> c == '+'
    &&& digit == 63 ==> c == '/'
}

/// A byte and the digits that it is read from.
spec fn byte_is_read(byte: u8, digits: Seq<int>, i: int) -> bool {
    let q = i / 3;
    &&& i % 3 == 0 ==> byte == digits[4 * q] * 4 + digits[4 * q + 1] / 16
    &&& i % 3 == 1 ==> byte == (digits[4 * q + 1] % 16) * 16 + digits[4 * q + 2] / 4
    &&& i % 3 == 2 ==> byte == (digits[4 * q + 2] % 4) * 64 + digits[4 * q + 3]
}

proof fn lemma_digit_is_written(bytes: Seq<u8>, j: int)
    requires
        0 <= j < base64(bytes).len(),
    ensures
        digit_is_written(sextet(bytes, j), base64(bytes)[j]),
{
    let digit = sextet(bytes, j);
    assert(0 <= digit < 64);
    assert(base64(bytes)[j] == base64_alphabet()[digit]);
    lemma_alphabet(digit);
}

proof fn lemma_alphabet(digit: int)
    requires
        0 <= digit < 64,
    ensures
        digit_is_written(digit, base64_alphabet()[digit]),
{
    reveal_strlit("ABCDEFGHIJKLMNOPQRSTUVWXYZabcdefghijklmnopqrstuvwxyz0123456789+/");
}

proof fn lemma_byte_is_read(bytes: Seq<u8>, i: int)
    requires
        0 <= i < bytes.len(),
    ensures
        ({
            let q = i / 3;
            &&& i % 3 == 0 ==> bytes[i] == sextet(bytes, 4 * q) * 4 + sextet(bytes, 4 * q + 1) / 16
            &&& i % 3 == 1 ==> bytes[i] == (sextet(bytes, 4 * q + 1) % 16) * 16 + sextet(
                bytes,
                4 * q + 2,
            ) / 4
            &&& i % 3 == 2 ==> bytes[i] == (sextet(bytes, 4 * q + 2) % 4) * 64 + sextet(
                bytes,
                4 * q + 3,
            )
        }),
{
    let q = i / 3;
    assert((4 * q) / 4 == q && (4 * q) % 4 == 0);
    assert((4 * q + 1) / 4 == q && (4 * q + 1) % 4 == 1);
    assert((4 * q + 2) / 4 == q && (4 * q + 2) % 4 == 2);
    assert((4 * q + 3) / 4 == q && (4 * q + 3) % 4 == 3);
}

proof fn lemma_last_digit(bytes: Seq<u8>)
    ensures
        ({
            let last = base64_len(bytes.len()) - 1;
            &&& bytes.len() % 3 == 1 ==> last >= 0 && sextet(bytes, last) % 16 == 0
            &&& bytes.len() % 3 == 2 ==> last >= 0 && sextet(bytes, last) % 4 == 0
        }),
{
    let n = bytes.len() as int;
    let q = n / 3;
    if n % 3 == 1 {
        assert(base64_len(bytes.len()) == 4 * q + 2);
        assert((4 * q + 1) / 4 == q && (4 * q + 1) % 4 == 1);
    } else if n % 3 == 2 {
        assert(base64_len(bytes.len()) == 4 * q + 3);
        assert((4 * q + 2) / 4 == q && (4 * q + 2) % 4 == 2);
    }
}

/// What is hashed of a message is the whole sender key, the type, and the whole
/// body, one behind the other.
pub proof fn lemma_hashed_bytes(sender_key: Seq<char>, message_type: u8, body: Seq<char>)
    ensures
        ({
            let bytes = hashed_bytes(sender_key, message_type, body);
            let n = encode_utf8(sender_key).len() as int;
            &&& bytes.len() == n + 1 + encode_utf8(body).len()
            &&& bytes.take(n) == encode_utf8(sender_key)
            &&& bytes[n] == message_type
            &&& bytes.skip(n + 1) == encode_utf8(body)
        }),
{
    let bytes = hashed_bytes(sender_key, message_type, body);
    let n = encode_utf8(sender_key).len() as int;
    assert(bytes.take(n) =~= encode_utf8(sender_key));
    assert(bytes.skip(n + 1) =~= encode_utf8(body));
}

/// Messages of one sender key that differ in type or body, anywhere in it, have
/// different bytes to hash.
pub proof fn lemma_hashed_bytes_tell_messages_apart(
    sender_key: Seq<char>,
    type_a: u8,
    body_a: Seq<char>,
    type_b: u8,
    body_b: Seq<char>,
)
    requires
        type_a != type_b || body_a != body_b,
    ensures
        hashed_bytes(sender_key, type_a, body_a) != hashed_bytes(sender_key, type_b, body_b),
{
    lemma_hashed_bytes(sender_key, type_a, body_a);
    lemma_hashed_bytes(sender_key, type_b, body_b);
    encode_utf8_decode_utf8(body_a);
    encode_utf8_decode_utf8(body_b);
}

/// The hash of a message names its sender key, and is the Base64 of the SHA-256
/// of the sender key, the type and the body.
pub proof fn lemma_message_hash(
    sender_key: Seq<char>,
    message_type: u8,
    body: Seq<char>,
    bytes: Seq<u8>,
)
    requires
        bytes == encode_utf8(sender_key).push(message_type).add(encode_utf8(body)),
    ensures
        message_hash(sender_key, message_type, body).sender_key == sender_key,
        message_hash(sender_key, message_type, body).hash == base64(sha256_digest(bytes)),
{
    assert(bytes =~= hashed_bytes(sender_key, message_type, body));
}

/// Messages of one sender key have the same hash only if they are the same, or
/// if SHA-256 gives one digest for two different texts.
pub proof fn lemma_equal_hashes(
    sender_key: Seq<char>,
    type_a: u8,
    body_a: Seq<char>,
    type_b: u8,
    body_b: Seq<char>,
)
    requires
        message_hash(sender_key, type_a, body_a).hash == message_hash(
            sender_key,
            type_b,
            body_b,
        ).hash,
    ensures
        (type_a == type_b && body_a == body_b) || exists|x: Seq<u8>, y: Seq<u8>|
            x != y && #[trigger] sha256_digest(x) == #[trigger] sha256_digest(y),
{
    let x = hashed_bytes(sender_key, type_a, body_a);
    let y = hashed_bytes(sender_key, type_b, body_b);
    crate::utilities::lemma_base64_injective(sha256_digest(x), sha256_digest(y));
    if type_a != type_b || body_a != body_b {
        lemma_hashed_bytes_tell_messages_apart(sender_key, type_a, body_a, type_b, body_b);
        assert(x != y && sha256_digest(x) == sha256_digest(y));
    }
}

/// There are two types of messages, and each keeps its whole ciphertext.
pub proof fn lemma_message_types(message_type: int, ciphertext: Seq<char>)
    ensures
        olm_message(0, ciphertext) == Some(OlmMessageView::PreKey(ciphertext)),
        olm_message(1, ciphertext) == Some(OlmMessageView::Message(ciphertext)),
        message_type != 0 && message_type != 1 ==> olm_message(message_type, ciphertext) is None,
{
}

/// The models of messages, hashes and sessions have all of their fields.
pub proof fn lemma_session_models(session: Session, hash: OlmMessageHash, ciphertext: String)
    ensures
        OlmMessage::PreKey(ciphertext)@ == OlmMessageView::PreKey(ciphertext@),
        OlmMessage::Message(ciphertext)@ == OlmMessageView::Message(ciphertext@),
        hash@.sender_key == hash.sender_key@,
        hash@.hash == hash.hash@,
        session@.user_id == session.user_id@,
        session@.device_id == session.device_id@,
        session@.our_identity_keys == session.our_identity_keys@,
        session@.session_id == session.session_id@,
        session@.sender_key == session.sender_key@,
        session@.creation_time == session.creation_time,
        session@.last_use_time == session.last_use_time,
        SessionType::New(session)@ == SessionTypeView::New(session@),
        SessionType::Existing(session)@ == SessionTypeView::Existing(session@),
        SessionTypeView::New(session@).session() == session@,
        SessionTypeView::Existing(session@).session() == session@,
{
}

/// A new session belongs to the account, names the key of the other account, and
/// has been created and used last at the time of its creation.
pub proof fn lemma_new_session_of_an_account(
    account: AccountView,
    their_identity_key: Seq<char>,
    session_id: Seq<char>,
    now: std::time::Instant,
)
    ensures
        ({
            let session = account.session(their_identity_key, session_id, now);
            &&& session.user_id == account.user_id
            &&& session.device_id == account.device_id
            &&& session.our_identity_keys == account.identity_keys
            &&& session.session_id == session_id
            &&& session.sender_key == their_identity_key
            &&& session.creation_time == now
            &&& session.last_use_time == now
        }),
{
}

/// The device of an account has its owner and its identity keys, and no other
/// keys.
pub proof fn lemma_device_of_an_account(account: AccountView)
    ensures
        ({
            let device = account.device();
            let curve = "curve25519:"@ + account.device_id;
            let ed = "ed25519:"@ + account.device_id;
            &&& device.user_id == account.user_id
            &&& device.device_id == account.device_id
            &&& device.keys.dom() == set![curve, ed]
            &&& device.keys[curve] == account.identity_keys.curve25519
            &&& device.keys[ed] == account.identity_keys.ed25519
        }),
{
    lemma_unsigned_device_keys(account);
}

/// The first key of a map is the one with the smallest ID, and there is one
/// exactly if the map is not empty.
pub proof fn lemma_first_key(key_map: StringMap<OneTimeKey>)
    requires
        in_key_order(key_map.keys(), key_map@),
    ensures
        first_key(key_map) is None <==> key_map@.dom() == Set::<Seq<char>>::empty(),
        first_key(key_map) matches Some(key) ==> exists|id: Seq<char>|
            {
                &&& #[trigger] key_map@.contains_key(id)
                &&& key == key_map@[id]@
                &&& forall|other: Seq<char>| #[trigger]
                    key_map@.contains_key(other) && other != id ==> key_less(id, other)
            },
{
    let ids = key_map.keys();
    lemma_keys_in_order(ids, key_map@);
    if ids.len() == 0 {
        assert(key_map@.dom() =~= Set::<Seq<char>>::empty());
    } else {
        let id = ids[0];
        assert(key_map@.contains_key(id));
        assert(key_map@.dom().contains(id));
        assert forall|other: Seq<char>| #[trigger]
            key_map@.contains_key(other) && other != id implies key_less(id, other) by {
            let i = choose|i: int| 0 <= i < ids.len() && #[trigger] ids[i] == other;
            assert(key_less(ids[0], ids[i]));
        }
    }
}

/// Only a signed key is used, and it is used whole. Otherwise the error says
/// what the first key is in place of it, and names the device.
pub proof fn lemma_only_signed_keys(
    device: ReadOnlyDeviceView,
    signed: SignedKeyView,
    bare: Seq<char>,
)
    ensures
        signed_key(device, Some(OneTimeKeyView::SignedKey(signed))) == Ok::<
            SignedKeyView,
            SessionCreationErrorView,
        >(signed),
        signed_key(device, None) == Err::<SignedKeyView, SessionCreationErrorView>(
            SessionCreationErrorView::OneTimeKeyMissing(device.user_id, device.device_id),
        ),
        signed_key(device, Some(OneTimeKeyView::Key(bare))) == Err::<
            SignedKeyView,
            SessionCreationErrorView,
        >(SessionCreationErrorView::OneTimeKeyNotSigned(device.user_id, device.device_id)),
        signed_key(device, Some(OneTimeKeyView::Unknown)) == Err::<
            SignedKeyView,
            SessionCreationErrorView,
        >(SessionCreationErrorView::OneTimeKeyUnknown(device.user_id, device.device_id)),
{
}

/// A session is created with the curve25519 key that stands under the ID of the
/// device, whole, and only if the signature holds.
pub proof fn lemma_identity_key_of_a_device(device: ReadOnlyDeviceView, error: SignatureError)
    ensures
        ({
            let id = "curve25519:"@ + device.device_id;
            &&& device.keys.contains_key(id) ==> identity_key(device, Ok(())) == Ok::<
                Seq<char>,
                SessionCreationErrorView,
            >(device.keys[id])
            &&& !device.keys.contains_key(id) ==> identity_key(device, Ok(())) == Err::<
                Seq<char>,
                SessionCreationErrorView,
            >(SessionCreationErrorView::DeviceMissingCurveKey(device.user_id, device.device_id))
            &&& identity_key(device, Err(error)) == Err::<Seq<char>, SessionCreationErrorView>(
                SessionCreationErrorView::InvalidSignature(
                    device.user_id,
                    device.device_id,
                    error,
                ),
            )
        }),
{
    lemma_key_id_text(device.device_id);
}

/// What is verified is the signature under the user and the ed25519 key of the
/// device, with that key, both whole.
pub proof fn lemma_signature_of_a_device(device: ReadOnlyDeviceView, key: SignedKeyView)
    ensures
        ({
            let id = "ed25519:"@ + device.device_id;
            let has_key = device.keys.contains_key(id);
            let has_signature = key.signatures.contains_key(device.user_id)
                && key.signatures[device.user_id].contains_key(id);
            &&& has_key && has_signature ==> signature_by(device, key) == Ok::<
                (Seq<char>, Seq<char>),
                SignatureError,
            >((device.keys[id], key.signatures[device.user_id][id]))
            &&& !has_key ==> signature_by(device, key) == Err::<
                (Seq<char>, Seq<char>),
                SignatureError,
            >(SignatureError::MissingSigningKey)
            &&& has_key && !has_signature ==> signature_by(device, key) == Err::<
                (Seq<char>, Seq<char>),
                SignatureError,
            >(SignatureError::NoSignatureFound)
        }),
{
    lemma_key_id_text(device.device_id);
}

/// The group sessions of an account name its device and its identity keys, the
/// whole room ID, and the settings as they are.
pub proof fn lemma_group_sessions_of_an_account(
    account: AccountView,
    room_id: Seq<char>,
    settings: EncryptionSettings,
    outbound: OutboundGroupSessionView,
    session_key: Seq<char>,
)
    ensures
        ({
            let made = account.outbound_group_session(room_id, settings);
            &&& made.device_id == account.device_id
            &&& made.account_identity_keys == account.identity_keys
            &&& made.room_id == room_id
            &&& made.settings == settings
        }),
        ({
            let inbound = outbound.inbound(session_key);
            &&& inbound.sender_key == outbound.account_identity_keys.curve25519
            &&& inbound.signing_key == outbound.account_identity_keys.ed25519
            &&& inbound.room_id == outbound.room_id
            &&& inbound.session_key == session_key
            &&& inbound.history_visibility == Some(outbound.settings.history_visibility)
        }),
{
}

/// The models of group sessions have all of their fields.
pub proof fn lemma_group_session_models(
    outbound: OutboundGroupSession,
    inbound: InboundGroupSession,
)
    ensures
        outbound@.device_id == outbound.device_id@,
        outbound@.account_identity_keys == outbound.account_identity_keys@,
        outbound@.room_id == outbound.room_id@,
        outbound@.settings == outbound.settings,
        inbound@.sender_key == inbound.sender_key@,
        inbound@.signing_key == inbound.signing_key@,
        inbound@.room_id == inbound.room_id@,
        inbound@.session_key == inbound.session_key@,
        inbound@.history_visibility == inbound.history_visibility,
{
}

/// The models of errors tell them apart, and have all of their fields.
pub proof fn lemma_error_models(
    text: String,
    user: UserId,
    event: EventError,
    json: serde_json::Error,
    store: CryptoStoreError,
    session: OlmSessionError,
    signature: SignatureError,
)
    ensures
        EventError::UnsupportedAlgorithm@ == EventErrorView::UnsupportedAlgorithm,
        EventError::UnsupportedOlmType@ == EventErrorView::UnsupportedOlmType,
        EventError::MissingCiphertext@ == EventErrorView::MissingCiphertext,
        EventError::MissingField(text)@ == EventErrorView::MissingField(text@),
        EventError::MissmatchedSender@ == EventErrorView::MissmatchedSender,
        EventError::MissmatchedKeys@ == EventErrorView::MissmatchedKeys,
        EventError::MissingSigningKey@ == EventErrorView::MissingSigningKey,
        OlmError::EventError(event)@ == OlmErrorView::EventError(event@),
        OlmError::JsonError(json)@ == OlmErrorView::JsonError(json_error_text(json)),
        OlmError::OlmSession(session)@ == OlmErrorView::OlmSession(session),
        OlmError::Store(store)@ == OlmErrorView::Store(store.message@),
        OlmError::SessionWedged(user, text)@ == OlmErrorView::SessionWedged(user@, text@),
        OlmError::ReplayedMessage(user, text)@ == OlmErrorView::ReplayedMessage(user@, text@),
        SessionCreationError::OneTimeKeyMissing(user, text)@
            == SessionCreationErrorView::OneTimeKeyMissing(user@, text@),
        SessionCreationError::OneTimeKeyNotSigned(user, text)@
            == SessionCreationErrorView::OneTimeKeyNotSigned(user@, text@),
        SessionCreationError::OneTimeKeyUnknown(user, text)@
            == SessionCreationErrorView::OneTimeKeyUnknown(user@, text@),
        SessionCreationError::InvalidSignature(user, text, signature)@
            == SessionCreationErrorView::InvalidSignature(user@, text@, signature),
        SessionCreationError::DeviceMissingCurveKey(user, text)@
            == SessionCreationErrorView::DeviceMissingCurveKey(user@, text@),
        SessionCreationError::OlmError(user, text, session)@ == SessionCreationErrorView::OlmError(
            user@,
            text@,
            session,
        ),
{
}

} // verus!
