//! Olm sessions and Olm messages.
use vstd::prelude::*;
use vstd::string::*;
use vstd::utf8::*;

use crate::keys::{IdentityKeys, IdentityKeysView};
use crate::identifiers::UserId;
use crate::utilities::{base64, encode, sha256, sha256_digest};

verus! {

/// A point in time of `std`.
#[verifier::external_type_specification]
#[verifier::external_body]
pub struct ExInstant(std::time::Instant);

/// An Olm session, without the ratchet that encrypts and decrypts.
#[derive(Debug)]
pub struct Session {
    /// The user ID of our account.
    pub user_id: UserId,
    /// The device ID of our account.
    pub device_id: String,
    /// The identity keys of our account.
    pub our_identity_keys: IdentityKeys,
    /// The ID of the session.
    pub session_id: String,
    /// The curve25519 key of the other account.
    pub sender_key: String,
    /// When the session was created.
    pub creation_time: std::time::Instant,
    /// When the session was last used.
    pub last_use_time: std::time::Instant,
}

/// The model of `Session`.
pub ghost struct SessionView {
    pub user_id: Seq<char>,
    pub device_id: Seq<char>,
    pub our_identity_keys: IdentityKeysView,
    pub session_id: Seq<char>,
    pub sender_key: Seq<char>,
    pub creation_time: std::time::Instant,
    pub last_use_time: std::time::Instant,
}

impl View for Session {
    type V = SessionView;

    open spec fn view(&self) -> SessionView {
        SessionView {
            user_id: self.user_id@,
            device_id: self.device_id@,
            our_identity_keys: self.our_identity_keys@,
            session_id: self.session_id@,
            sender_key: self.sender_key@,
            creation_time: self.creation_time,
            last_use_time: self.last_use_time,
        }
    }
}

impl Clone for Session {
    fn clone(&self) -> (r: Self)
        ensures
            r == *self,
    {
        Session {
            user_id: self.user_id.clone(),
            device_id: self.device_id.clone(),
            our_identity_keys: self.our_identity_keys.clone(),
            session_id: self.session_id.clone(),
            sender_key: self.sender_key.clone(),
            creation_time: self.creation_time,
            last_use_time: self.last_use_time,
        }
    }
}

/// A session that decrypted a message, and whether the message created it.
#[derive(Debug)]
pub enum SessionType {
    /// The message created the session.
    New(Session),
    /// The session was there before.
    Existing(Session),
}

/// The model of `SessionType`.
pub ghost enum SessionTypeView {
    New(SessionView),
    Existing(SessionView),
}

impl View for SessionType {
    type V = SessionTypeView;

    open spec fn view(&self) -> SessionTypeView {
        match self {
            SessionType::New(session) => SessionTypeView::New(session@),
            SessionType::Existing(session) => SessionTypeView::Existing(session@),
        }
    }
}

impl SessionTypeView {
    /// The session, whether it is new or not.
    pub open spec fn session(self) -> SessionView {
        match self {
            SessionTypeView::New(session) => session,
            SessionTypeView::Existing(session) => session,
        }
    }
}

impl Clone for SessionType {
    fn clone(&self) -> (r: Self)
        ensures
            r == *self,
    {
        match self {
            SessionType::New(session) => SessionType::New(session.clone()),
            SessionType::Existing(session) => SessionType::Existing(session.clone()),
        }
    }
}

impl SessionType {
    /// The session, whether it is new or not.
    pub fn session(self) -> (r: Session)
        ensures
            self == SessionType::New(r) || self == SessionType::Existing(r),
            r@ == self@.session(),
    {
        match self {
            SessionType::New(s) => s,
            SessionType::Existing(s) => s,
        }
    }
}

/// An Olm message, by its type and its ciphertext.
#[derive(Debug)]
pub enum OlmMessage {
    /// A message from which a session can be created.
    PreKey(String),
    /// A message of a session that has been established.
    Message(String),
}

/// The model of `OlmMessage`.
pub ghost enum OlmMessageView {
    PreKey(Seq<char>),
    Message(Seq<char>),
}

impl View for OlmMessage {
    type V = OlmMessageView;

    open spec fn view(&self) -> OlmMessageView {
        match self {
            OlmMessage::PreKey(ciphertext) => OlmMessageView::PreKey(ciphertext@),
            OlmMessage::Message(ciphertext) => OlmMessageView::Message(ciphertext@),
        }
    }
}

/// The message of a type and a ciphertext, where there is one.
pub open spec fn olm_message(message_type: int, ciphertext: Seq<char>) -> Option<OlmMessageView> {
    if message_type == 0 {
        Some(OlmMessageView::PreKey(ciphertext))
    } else if message_type == 1 {
        Some(OlmMessageView::Message(ciphertext))
    } else {
        None
    }
}

impl OlmMessage {
    /// The message of a type and a ciphertext. The type is 0 for a pre-key
    /// message and 1 for a normal one.
    pub fn from_type_and_ciphertext(message_type: usize, ciphertext: String) -> (r: Result<Self, ()>)
        ensures
            match r {
                Ok(message) => olm_message(message_type as int, ciphertext@) == Some(message@),
                Err(_) => olm_message(message_type as int, ciphertext@) is None,
            },
    {
        match message_type {
            0 => Ok(OlmMessage::PreKey(ciphertext)),
            1 => Ok(OlmMessage::Message(ciphertext)),
            _ => Err(()),
        }
    }
}

impl Clone for OlmMessage {
    fn clone(&self) -> (r: Self)
        ensures
            r == *self,
    {
        match self {
            OlmMessage::PreKey(ciphertext) => OlmMessage::PreKey(ciphertext.clone()),
            OlmMessage::Message(ciphertext) => OlmMessage::Message(ciphertext.clone()),
        }
    }
}

/// A hash of an Olm message.
///
/// Can be used to check if a message has been replayed to us.
#[derive(Debug)]
pub struct OlmMessageHash {
    /// The curve25519 key of the sender that sent us the Olm message.
    pub sender_key: String,
    /// The hash of the message.
    pub hash: String,
}

/// The model of `OlmMessageHash`.
pub ghost struct OlmMessageHashView {
    pub sender_key: Seq<char>,
    pub hash: Seq<char>,
}

impl View for OlmMessageHash {
    type V = OlmMessageHashView;

    open spec fn view(&self) -> OlmMessageHashView {
        OlmMessageHashView { sender_key: self.sender_key@, hash: self.hash@ }
    }
}

/// The bytes of a message that are hashed.
pub open spec fn hashed_bytes(sender_key: Seq<char>, message_type: u8, body: Seq<char>) -> Seq<u8> {
    encode_utf8(sender_key) + seq![message_type] + encode_utf8(body)
}

/// The hash of a message: its SHA-256 in Base64.
pub open spec fn message_hash(
    sender_key: Seq<char>,
    message_type: u8,
    body: Seq<char>,
) -> OlmMessageHashView {
    OlmMessageHashView {
        sender_key,
        hash: base64(sha256_digest(hashed_bytes(sender_key, message_type, body))),
    }
}

impl OlmMessageHash {
    /// The hash of a message.
    pub fn new(sender_key: &String, message_type: u8, body: &String) -> (r: Self)
        ensures
            r@ == message_hash(sender_key@, message_type, body@),
    {
        let mut bytes: Vec<u8> = Vec::new();
        bytes.extend_from_slice(sender_key.as_str().as_bytes());
        bytes.push(message_type);
        bytes.extend_from_slice(body.as_str().as_bytes());
        assert(bytes@ =~= hashed_bytes(sender_key@, message_type, body@));
        let digest: Vec<u8> = sha256(bytes.as_slice());
        OlmMessageHash { sender_key: sender_key.clone(), hash: encode(digest.as_slice()) }
    }
}

impl Clone for OlmMessageHash {
    fn clone(&self) -> (r: Self)
        ensures
            r == *self,
    {
        OlmMessageHash { sender_key: self.sender_key.clone(), hash: self.hash.clone() }
    }
}

} // verus!
