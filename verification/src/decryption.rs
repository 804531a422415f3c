//! Decrypting Olm messages.
//!
//! A message is decrypted in steps. At each of them the library decides what is
//! to be done next, and goes on from what came of it. What is done, with the
//! store or with the ratchets of the sessions, is done outside.
use vstd::prelude::*;
use vstd::string::*;

use crate::account::{Account, AccountView, ReadOnlyAccount};
use crate::error::{
    CryptoStoreError, EventError, EventErrorView, OlmError, OlmErrorView, OlmSessionError,
};
use crate::group_session::{InboundGroupSession, InboundGroupSessionView};
use crate::identifiers::UserId;
use crate::session::{
    message_hash, olm_message, OlmMessage, OlmMessageHash, OlmMessageHashView, OlmMessageView, Session,
    SessionType, SessionTypeView, SessionView,
};
use crate::string_map::StringMap;

verus! {

/// A to-device event of `ruma`.
#[verifier::external_type_specification]
#[verifier::external_body]
pub struct ExAnyToDeviceEvent(ruma::events::AnyToDeviceEvent);

/// The ciphertext for one device.
#[derive(Debug)]
pub struct CiphertextInfo {
    /// The ciphertext.
    pub body: String,
    /// The type of the Olm message.
    pub message_type: u64,
}

/// The content of an event that is encrypted with Olm.
pub struct OlmV1Curve25519AesSha2Content {
    /// The ciphertexts by the curve25519 keys of the devices that they are for.
    pub ciphertext: StringMap<CiphertextInfo>,
    /// The curve25519 key of the sender.
    pub sender_key: String,
}

/// How an event is encrypted.
pub enum EncryptedEventScheme {
    /// With Olm.
    OlmV1Curve25519AesSha2(OlmV1Curve25519AesSha2Content),
    /// With Megolm.
    MegolmV1AesSha2,
    /// In another way.
    Unknown,
}

/// An encrypted event that was sent to our device.
pub struct EncryptedToDeviceEvent {
    /// The user that sent the event.
    pub sender: UserId,
    /// How the event is encrypted.
    pub scheme: EncryptedEventScheme,
}

/// An Olm message for our device.
#[derive(Debug)]
pub struct ReceivedMessage {
    /// The user that sent the message.
    pub sender: UserId,
    /// The curve25519 key of the sender.
    pub sender_key: String,
    /// The message.
    pub message: OlmMessage,
    /// The hash of the message.
    pub message_hash: OlmMessageHash,
}

/// The model of `ReceivedMessage`.
pub ghost struct ReceivedMessageView {
    pub sender: Seq<char>,
    pub sender_key: Seq<char>,
    pub message: OlmMessageView,
    pub message_hash: OlmMessageHashView,
}

impl View for ReceivedMessage {
    type V = ReceivedMessageView;

    open spec fn view(&self) -> ReceivedMessageView {
        ReceivedMessageView {
            sender: self.sender@,
            sender_key: self.sender_key@,
            message: self.message@,
            message_hash: self.message_hash@,
        }
    }
}

/// The message in an event for the device with a curve25519 key, or the reason
/// why there is none.
pub open spec fn received_message(own_key: Seq<char>, event: EncryptedToDeviceEvent) -> Result<
    ReceivedMessageView,
    EventErrorView,
> {
    match event.scheme {
        EncryptedEventScheme::OlmV1Curve25519AesSha2(
            content,
        ) => if !content.ciphertext@.contains_key(own_key) {
            Err(EventErrorView::MissingCiphertext)
        } else {
            let info = content.ciphertext@[own_key];
            match olm_message(info.message_type as int, info.body@) {
                None => Err(EventErrorView::UnsupportedOlmType),
                Some(message) => Ok(
                    ReceivedMessageView {
                        sender: event.sender@,
                        sender_key: content.sender_key@,
                        message,
                        message_hash: message_hash(
                            content.sender_key@,
                            info.message_type as u8,
                            info.body@,
                        ),
                    },
                ),
            }
        },
        _ => Err(EventErrorView::UnsupportedAlgorithm),
    }
}

/// What came of decrypting an event.
#[derive(Clone, Debug)]
pub struct OlmDecryptionInfo {
    /// The session that decrypted the message.
    pub session: SessionType,
    /// The hash of the message.
    pub message_hash: OlmMessageHash,
    /// The event in typed form, where it has been read so far.
    pub deserialized_event: Option<ruma::events::AnyToDeviceEvent>,
    /// The JSON text of the event.
    pub event: String,
    /// The ed25519 key of the sender.
    pub signing_key: String,
    /// The curve25519 key of the sender.
    pub sender_key: String,
    /// The group session that the event brought, where it is known so far.
    pub inbound_group_session: Option<InboundGroupSession>,
}

/// The model of `OlmDecryptionInfo`.
pub ghost struct OlmDecryptionInfoView {
    pub session: SessionTypeView,
    pub message_hash: OlmMessageHashView,
    pub deserialized_event: Option<ruma::events::AnyToDeviceEvent>,
    pub event: Seq<char>,
    pub signing_key: Seq<char>,
    pub sender_key: Seq<char>,
    pub inbound_group_session: Option<InboundGroupSessionView>,
}

impl View for OlmDecryptionInfo {
    type V = OlmDecryptionInfoView;

    open spec fn view(&self) -> OlmDecryptionInfoView {
        OlmDecryptionInfoView {
            session: self.session@,
            message_hash: self.message_hash@,
            deserialized_event: self.deserialized_event,
            event: self.event@,
            signing_key: self.signing_key@,
            sender_key: self.sender_key@,
            inbound_group_session: match self.inbound_group_session {
                Some(session) => Some(session@),
                None => None,
            },
        }
    }
}

/// What is to be stored.
pub struct Changes {
    /// The account, if it has changed.
    pub account: Option<ReadOnlyAccount>,
    /// The sessions that have changed.
    pub sessions: Vec<Session>,
}

/// The model of `Changes`.
#[verifier::ext_equal]
pub ghost struct ChangesView {
    pub account: Option<AccountView>,
    pub sessions: Seq<SessionView>,
}

impl View for Changes {
    type V = ChangesView;

    open spec fn view(&self) -> ChangesView {
        ChangesView {
            account: match self.account {
                Some(account) => Some(account@),
                None => None,
            },
            sessions: Seq::new(self.sessions@.len(), |i: int| self.sessions@[i]@),
        }
    }
}

/// The sessions with the sender key of a message are to be loaded.
pub struct LoadSessions {
    message: ReceivedMessage,
}

/// It is to be tested whether a pre-key message was encrypted for the session
/// at an index.
pub struct MatchSession {
    message: ReceivedMessage,
    index: usize,
    count: usize,
}

/// A message is to be decrypted with the session at an index.
pub struct DecryptSession {
    message: ReceivedMessage,
    index: usize,
    count: usize,
}

/// A session is to be created from a pre-key message, and the one-time key that
/// it used is to be removed from the account.
pub struct CreateSession {
    message: ReceivedMessage,
}

/// A message is to be decrypted with the session that was created from it.
pub struct DecryptNew {
    message: ReceivedMessage,
    session: Session,
}

/// Changes are to be stored, before decryption fails with an error.
pub struct SaveSession {
    changes: Changes,
    error: OlmError,
}

/// It is to be tested whether the hash of a message is known, before decryption
/// fails.
pub struct CheckReplay {
    message: ReceivedMessage,
}

/// The state of a decryption: what is to be done next, or what came of it.
pub enum Decryption {
    LoadSessions(LoadSessions),
    MatchSession(MatchSession),
    DecryptSession(DecryptSession),
    CreateSession(CreateSession),
    DecryptNew(DecryptNew),
    SaveSession(SaveSession),
    CheckReplay(CheckReplay),
    Finished(Result<OlmDecryptionInfo, OlmError>),
}

impl View for LoadSessions {
    type V = ReceivedMessageView;

    closed spec fn view(&self) -> ReceivedMessageView {
        self.message@
    }
}

/// The model of `MatchSession` and of `DecryptSession`.
pub ghost struct SessionAttempt {
    pub message: ReceivedMessageView,
    pub index: int,
    pub count: int,
}

impl View for MatchSession {
    type V = SessionAttempt;

    closed spec fn view(&self) -> SessionAttempt {
        SessionAttempt {
            message: self.message@,
            index: self.index as int,
            count: self.count as int,
        }
    }
}

impl View for DecryptSession {
    type V = SessionAttempt;

    closed spec fn view(&self) -> SessionAttempt {
        SessionAttempt {
            message: self.message@,
            index: self.index as int,
            count: self.count as int,
        }
    }
}

impl View for CreateSession {
    type V = ReceivedMessageView;

    closed spec fn view(&self) -> ReceivedMessageView {
        self.message@
    }
}

/// The model of `DecryptNew`.
pub ghost struct NewSessionAttempt {
    pub message: ReceivedMessageView,
    pub session: SessionView,
}

impl View for DecryptNew {
    type V = NewSessionAttempt;

    closed spec fn view(&self) -> NewSessionAttempt {
        NewSessionAttempt { message: self.message@, session: self.session@ }
    }
}

/// The model of `SaveSession`.
pub ghost struct RefusedEvent {
    pub changes: ChangesView,
    pub error: OlmErrorView,
}

impl View for SaveSession {
    type V = RefusedEvent;

    closed spec fn view(&self) -> RefusedEvent {
        RefusedEvent { changes: self.changes@, error: self.error@ }
    }
}

impl View for CheckReplay {
    type V = ReceivedMessageView;

    closed spec fn view(&self) -> ReceivedMessageView {
        self.message@
    }
}

/// The model of `Decryption`.
pub ghost enum DecryptionView {
    LoadSessions(ReceivedMessageView),
    MatchSession(SessionAttempt),
    DecryptSession(SessionAttempt),
    CreateSession(ReceivedMessageView),
    DecryptNew(NewSessionAttempt),
    SaveSession(RefusedEvent),
    CheckReplay(ReceivedMessageView),
    Finished(Result<OlmDecryptionInfoView, OlmErrorView>),
}

impl View for Decryption {
    type V = DecryptionView;

    open spec fn view(&self) -> DecryptionView {
        match self {
            Decryption::LoadSessions(s) => DecryptionView::LoadSessions(s@),
            Decryption::MatchSession(s) => DecryptionView::MatchSession(s@),
            Decryption::DecryptSession(s) => DecryptionView::DecryptSession(s@),
            Decryption::CreateSession(s) => DecryptionView::CreateSession(s@),
            Decryption::DecryptNew(s) => DecryptionView::DecryptNew(s@),
            Decryption::SaveSession(s) => DecryptionView::SaveSession(s@),
            Decryption::CheckReplay(s) => DecryptionView::CheckReplay(s@),
            Decryption::Finished(Ok(info)) => DecryptionView::Finished(Ok(info@)),
            Decryption::Finished(Err(error)) => DecryptionView::Finished(Err(error@)),
        }
    }
}

/// The state in which decryption has failed.
pub open spec fn failed(error: OlmErrorView) -> DecryptionView {
    DecryptionView::Finished(Err(error))
}

/// The state once no session is left to try: a session can be created from a
/// pre-key message only.
pub open spec fn no_session_left(message: ReceivedMessageView) -> DecryptionView {
    match message.message {
        OlmMessageView::PreKey(_) => DecryptionView::CreateSession(message),
        OlmMessageView::Message(_) => DecryptionView::CheckReplay(message),
    }
}

/// The state in which the session at an index is to be tried. A pre-key message
/// is matched with the session before it is decrypted.
pub open spec fn try_session(message: ReceivedMessageView, index: int, count: int) -> DecryptionView {
    if index < count {
        match message.message {
            OlmMessageView::PreKey(_) => DecryptionView::MatchSession(
                SessionAttempt { message, index, count },
            ),
            OlmMessageView::Message(_) => DecryptionView::DecryptSession(
                SessionAttempt { message, index, count },
            ),
        }
    } else {
        no_session_left(message)
    }
}

/// The state once the sessions have been loaded.
pub open spec fn after_load(
    message: ReceivedMessageView,
    sessions: Result<Option<int>, Seq<char>>,
) -> DecryptionView {
    match sessions {
        Err(error) => failed(OlmErrorView::Store(error)),
        Ok(None) => no_session_left(message),
        Ok(Some(count)) => try_session(message, 0, count),
    }
}

/// The state once a pre-key message has been matched with a session.
pub open spec fn after_match(
    message: ReceivedMessageView,
    index: int,
    count: int,
    matches: Result<bool, OlmSessionError>,
) -> DecryptionView {
    match matches {
        Err(error) => failed(OlmErrorView::OlmSession(error)),
        Ok(true) => DecryptionView::DecryptSession(SessionAttempt { message, index, count }),
        Ok(false) => try_session(message, index + 1, count),
    }
}

impl AccountView {
    /// What is stored where the text that a session decrypted is refused. A new
    /// session has taken a one-time key from the account.
    pub open spec fn changes(self, session: SessionTypeView) -> ChangesView {
        ChangesView {
            account: match session {
                SessionTypeView::New(_) => Some(self),
                SessionTypeView::Existing(_) => None,
            },
            sessions: seq![session.session()],
        }
    }

    /// What comes of a message whose event has been read.
    pub open spec fn decryption_info(
        message: ReceivedMessageView,
        session: SessionTypeView,
        event: Seq<char>,
        signing_key: Seq<char>,
    ) -> OlmDecryptionInfoView {
        OlmDecryptionInfoView {
            session,
            message_hash: message.message_hash,
            deserialized_event: None,
            event,
            signing_key,
            sender_key: message.sender_key,
            inbound_group_session: None,
        }
    }

    /// The state once the text that a session decrypted has been read or has
    /// been refused.
    pub open spec fn after_parse(
        self,
        message: ReceivedMessageView,
        session: SessionTypeView,
        parsed: Result<(Seq<char>, Seq<char>), OlmErrorView>,
    ) -> DecryptionView {
        match parsed {
            Ok((event, signing_key)) => DecryptionView::Finished(
                Ok(Self::decryption_info(message, session, event, signing_key)),
            ),
            Err(error) => DecryptionView::SaveSession(
                RefusedEvent { changes: self.changes(session), error },
            ),
        }
    }

    /// The state once a session has decrypted a message.
    pub open spec fn after_plaintext(
        self,
        message: ReceivedMessageView,
        session: SessionTypeView,
        plaintext: Seq<char>,
    ) -> DecryptionView {
        self.after_parse(message, session, self.parsed_event(message.sender, plaintext))
    }

    /// The state once a message has been decrypted with the session at an
    /// index, or has been refused by it. Where the session matched, it is
    /// likely wedged.
    pub open spec fn after_decrypt(
        self,
        message: ReceivedMessageView,
        index: int,
        count: int,
        decrypted: Result<(SessionView, Seq<char>), OlmSessionError>,
    ) -> DecryptionView {
        match decrypted {
            Ok((session, plaintext)) => self.after_plaintext(
                message,
                SessionTypeView::Existing(session),
                plaintext,
            ),
            Err(_) => match message.message {
                OlmMessageView::PreKey(_) => DecryptionView::CheckReplay(message),
                OlmMessageView::Message(_) => try_session(message, index + 1, count),
            },
        }
    }

    /// The state once an Olm session has been created from a message, or has
    /// been refused.
    pub open spec fn after_create(
        self,
        message: ReceivedMessageView,
        created: Result<Seq<char>, OlmSessionError>,
        now: std::time::Instant,
    ) -> DecryptionView {
        match created {
            Ok(session_id) => DecryptionView::DecryptNew(
                NewSessionAttempt {
                    message,
                    session: self.session(message.sender_key, session_id, now),
                },
            ),
            Err(_) => DecryptionView::CheckReplay(message),
        }
    }

    /// The state once a message has been decrypted with the session that was
    /// created from it, or has been refused by it.
    pub open spec fn after_decrypt_new(
        self,
        message: ReceivedMessageView,
        decrypted: Result<(SessionView, Seq<char>), OlmSessionError>,
    ) -> DecryptionView {
        match decrypted {
            Ok((session, plaintext)) => self.after_plaintext(
                message,
                SessionTypeView::New(session),
                plaintext,
            ),
            Err(error) => failed(OlmErrorView::OlmSession(error)),
        }
    }
}

/// The state once changes have been stored, or have been refused.
pub open spec fn after_save(error: OlmErrorView, saved: Result<(), Seq<char>>) -> DecryptionView {
    match saved {
        Ok(_) => failed(error),
        Err(e) => failed(OlmErrorView::Store(e)),
    }
}

/// The state once it is known whether a message that cannot be decrypted has
/// been seen before.
pub open spec fn after_check(
    message: ReceivedMessageView,
    known: Result<bool, Seq<char>>,
) -> DecryptionView {
    match known {
        Ok(true) => failed(OlmErrorView::ReplayedMessage(message.sender, message.sender_key)),
        Ok(false) => failed(OlmErrorView::SessionWedged(message.sender, message.sender_key)),
        Err(e) => failed(OlmErrorView::Store(e)),
    }
}

/// The model of a result of the store.
pub open spec fn stored<T>(result: Result<T, CryptoStoreError>) -> Result<T, Seq<char>> {
    match result {
        Ok(value) => Ok(value),
        Err(error) => Err(error.message@),
    }
}

/// The model of what came of loading sessions.
pub open spec fn loaded_count(sessions: Result<Option<usize>, CryptoStoreError>) -> Result<
    Option<int>,
    Seq<char>,
> {
    match sessions {
        Ok(Some(count)) => Ok(Some(count as int)),
        Ok(None) => Ok(None),
        Err(error) => Err(error.message@),
    }
}

/// The model of a session and the text that it decrypted.
pub open spec fn decrypted_text(result: Result<(Session, String), OlmSessionError>) -> Result<
    (SessionView, Seq<char>),
    OlmSessionError,
> {
    match result {
        Ok((session, plaintext)) => Ok((session@, plaintext@)),
        Err(error) => Err(error),
    }
}

/// The model of an event and the signing key of its sender.
pub open spec fn parsed_text(result: Result<(String, String), OlmError>) -> Result<
    (Seq<char>, Seq<char>),
    OlmErrorView,
> {
    match result {
        Ok((event, signing_key)) => Ok((event@, signing_key@)),
        Err(error) => Err(error@),
    }
}

/// The model of the ID of a created session.
pub open spec fn created_id(result: Result<String, OlmSessionError>) -> Result<
    Seq<char>,
    OlmSessionError,
> {
    match result {
        Ok(session_id) => Ok(session_id@),
        Err(error) => Err(error),
    }
}

impl ReceivedMessage {
    /// Goes on once no session is left to try.
    fn no_session_left(self) -> (r: Decryption)
        ensures
            r@ == no_session_left(self@),
    {
        match &self.message {
            OlmMessage::PreKey(_) => Decryption::CreateSession(CreateSession { message: self }),
            OlmMessage::Message(_) => Decryption::CheckReplay(CheckReplay { message: self }),
        }
    }

    /// Goes on with the session at an index, if there is one.
    fn try_session(self, index: usize, count: usize) -> (r: Decryption)
        ensures
            r@ == try_session(self@, index as int, count as int),
    {
        if index >= count {
            return self.no_session_left();
        }
        match &self.message {
            OlmMessage::PreKey(_) => Decryption::MatchSession(
                MatchSession { message: self, index, count },
            ),
            OlmMessage::Message(_) => Decryption::DecryptSession(
                DecryptSession { message: self, index, count },
            ),
        }
    }

    /// Goes on with the text that a session decrypted.
    fn read_plaintext(self, account: &ReadOnlyAccount, session: SessionType, plaintext: &String) -> (r:
        Decryption)
        ensures
            r@ == account@.after_plaintext(self@, session@, plaintext@),
    {
        let parsed: Result<(String, String), OlmError> = account.parse_decrypted_to_device_event(
            &self.sender,
            plaintext.as_str(),
        );
        self.parsed(account, session, parsed)
    }

    /// Goes on once the text that a session decrypted has been read or has been
    /// refused.
    ///
    /// # Arguments
    ///
    /// * `account` - Our account.
    ///
    /// * `session` - The session that decrypted the text.
    ///
    /// * `parsed` - The event and the signing key of its sender, or the error.
    pub fn parsed(
        self,
        account: &ReadOnlyAccount,
        session: SessionType,
        parsed: Result<(String, String), OlmError>,
    ) -> (r: Decryption)
        ensures
            r@ == account@.after_parse(self@, session@, parsed_text(parsed)),
            parsed matches Err(error) ==> (r matches Decryption::SaveSession(s) && s.refusal()
                == error),
    {
        match parsed {
            Ok((event, signing_key)) => Decryption::Finished(
                Ok(
                    OlmDecryptionInfo {
                        session,
                        message_hash: self.message_hash,
                        deserialized_event: None,
                        event,
                        signing_key,
                        sender_key: self.sender_key,
                        inbound_group_session: None,
                    },
                ),
            ),
            Err(error) => {
                // A new session might have been created although the event is
                // refused, store it for the error case here.
                let mut sessions: Vec<Session> = Vec::new();
                let changed: Option<ReadOnlyAccount> = match session {
                    SessionType::New(s) => {
                        sessions.push(s);
                        Some(account.snapshot())
                    },
                    SessionType::Existing(s) => {
                        sessions.push(s);
                        None
                    },
                };
                let changes = Changes { account: changed, sessions };
                assert(changes@ =~= account@.changes(session@));
                Decryption::SaveSession(SaveSession { changes, error })
            },
        }
    }
}

impl LoadSessions {
    /// The message.
    pub fn message(&self) -> (r: &ReceivedMessage)
        ensures
            r@ == self@,
    {
        &self.message
    }

    /// Goes on once the sessions with the sender key have been loaded.
    ///
    /// # Arguments
    ///
    /// * `sessions` - How many sessions there are, where any are stored.
    pub fn loaded(self, sessions: Result<Option<usize>, CryptoStoreError>) -> (r: Decryption)
        ensures
            r@ == after_load(self@, loaded_count(sessions)),
    {
        match sessions {
            Err(error) => Decryption::Finished(Err(OlmError::Store(error))),
            Ok(None) => self.message.no_session_left(),
            Ok(Some(count)) => self.message.try_session(0, count),
        }
    }
}

impl MatchSession {
    #[verifier::type_invariant]
    closed spec fn in_range(self) -> bool {
        self.index < self.count
    }

    /// The message.
    pub fn message(&self) -> (r: &ReceivedMessage)
        ensures
            r@ == self@.message,
    {
        &self.message
    }

    /// The index of the session.
    pub fn index(&self) -> (r: usize)
        ensures
            r == self@.index,
            r < self@.count,
    {
        proof {
            use_type_invariant(self);
        }
        self.index
    }

    /// Goes on once the message has been matched with the session.
    pub fn matched(self, matches: Result<bool, OlmSessionError>) -> (r: Decryption)
        ensures
            r@ == after_match(self@.message, self@.index, self@.count, matches),
    {
        proof {
            use_type_invariant(&self);
        }
        match matches {
            Err(error) => Decryption::Finished(Err(OlmError::OlmSession(error))),
            Ok(true) => Decryption::DecryptSession(
                DecryptSession { message: self.message, index: self.index, count: self.count },
            ),
            Ok(false) => self.message.try_session(self.index + 1, self.count),
        }
    }
}

impl DecryptSession {
    #[verifier::type_invariant]
    closed spec fn in_range(self) -> bool {
        self.index < self.count
    }

    /// The message.
    pub fn message(&self) -> (r: &ReceivedMessage)
        ensures
            r@ == self@.message,
    {
        &self.message
    }

    /// The index of the session.
    pub fn index(&self) -> (r: usize)
        ensures
            r == self@.index,
            r < self@.count,
    {
        proof {
            use_type_invariant(self);
        }
        self.index
    }

    /// Goes on once the session has decrypted the message or has refused it.
    ///
    /// # Arguments
    ///
    /// * `account` - Our account.
    ///
    /// * `decrypted` - The session as it is after the decryption, and the text.
    pub fn decrypted(
        self,
        account: &ReadOnlyAccount,
        decrypted: Result<(Session, String), OlmSessionError>,
    ) -> (r: Decryption)
        ensures
            r@ == account@.after_decrypt(
                self@.message,
                self@.index,
                self@.count,
                decrypted_text(decrypted),
            ),
    {
        proof {
            use_type_invariant(&self);
        }
        match decrypted {
            Ok((session, plaintext)) => self.message.read_plaintext(
                account,
                SessionType::Existing(session),
                &plaintext,
            ),
            Err(_) => match &self.message.message {
                // Decryption failed with a matching session, the session is
                // likely wedged and needs to be rotated.
                OlmMessage::PreKey(_) => Decryption::CheckReplay(
                    CheckReplay { message: self.message },
                ),
                OlmMessage::Message(_) => self.message.try_session(self.index + 1, self.count),
            },
        }
    }
}

impl CreateSession {
    /// The message.
    pub fn message(&self) -> (r: &ReceivedMessage)
        ensures
            r@ == self@,
    {
        &self.message
    }

    /// Goes on once an Olm session has been created from the message, or has
    /// been refused.
    ///
    /// # Arguments
    ///
    /// * `account` - Our account.
    ///
    /// * `created` - The ID of the Olm session, or the error.
    ///
    /// * `now` - The present time.
    pub fn created(
        self,
        account: &ReadOnlyAccount,
        created: Result<String, OlmSessionError>,
        now: std::time::Instant,
    ) -> (r: Decryption)
        ensures
            r@ == account@.after_create(self@, created_id(created), now),
    {
        match account.create_inbound_session(&self.message.sender_key, created, now) {
            Ok(session) => Decryption::DecryptNew(DecryptNew { message: self.message, session }),
            Err(_) => Decryption::CheckReplay(CheckReplay { message: self.message }),
        }
    }
}

impl DecryptNew {
    /// The message.
    pub fn message(&self) -> (r: &ReceivedMessage)
        ensures
            r@ == self@.message,
    {
        &self.message
    }

    /// The session.
    pub fn session(&self) -> (r: &Session)
        ensures
            r@ == self@.session,
    {
        &self.session
    }

    /// Goes on once the session has decrypted the message or has refused it.
    ///
    /// # Arguments
    ///
    /// * `account` - Our account.
    ///
    /// * `decrypted` - The session as it is after the decryption, and the text.
    pub fn decrypted(
        self,
        account: &ReadOnlyAccount,
        decrypted: Result<(Session, String), OlmSessionError>,
    ) -> (r: Decryption)
        ensures
            r@ == account@.after_decrypt_new(self@.message, decrypted_text(decrypted)),
    {
        match decrypted {
            Ok((session, plaintext)) => self.message.read_plaintext(
                account,
                SessionType::New(session),
                &plaintext,
            ),
            Err(error) => Decryption::Finished(Err(OlmError::OlmSession(error))),
        }
    }
}

impl SaveSession {
    /// The error with which decryption fails.
    pub closed spec fn refusal(self) -> OlmError {
        self.error
    }

    /// What is to be stored.
    pub fn changes(&self) -> (r: &Changes)
        ensures
            r@ == self@.changes,
    {
        &self.changes
    }

    /// Goes on once the changes have been stored.
    pub fn saved(self, saved: Result<(), CryptoStoreError>) -> (r: Decryption)
        ensures
            r@ == after_save(self@.error, stored(saved)),
            match saved {
                Ok(_) => r == Decryption::Finished(Err(self.refusal())),
                Err(error) => r == Decryption::Finished(Err(OlmError::Store(error))),
            },
    {
        match saved {
            Ok(_) => Decryption::Finished(Err(self.error)),
            Err(error) => Decryption::Finished(Err(OlmError::Store(error))),
        }
    }
}

impl CheckReplay {
    /// The message.
    pub fn message(&self) -> (r: &ReceivedMessage)
        ensures
            r@ == self@,
    {
        &self.message
    }

    /// Goes on once it is known whether the hash of the message has been
    /// stored before.
    pub fn checked(self, known: Result<bool, CryptoStoreError>) -> (r: Decryption)
        ensures
            r@ == after_check(self@, stored(known)),
    {
        let message: ReceivedMessage = self.message;
        match known {
            Ok(true) => Decryption::Finished(
                Err(OlmError::ReplayedMessage(message.sender, message.sender_key)),
            ),
            Ok(false) => Decryption::Finished(
                Err(OlmError::SessionWedged(message.sender, message.sender_key)),
            ),
            Err(error) => Decryption::Finished(Err(OlmError::Store(error))),
        }
    }
}

impl Account {
    /// Begin to decrypt a to-device event.
    pub fn decrypt_to_device_event(&self, event: &EncryptedToDeviceEvent) -> (r: Decryption)
        ensures
            r@ == match received_message(self.inner@.identity_keys.curve25519, *event) {
                Ok(message) => DecryptionView::LoadSessions(message),
                Err(error) => failed(OlmErrorView::EventError(error)),
            },
    {
        let content: &OlmV1Curve25519AesSha2Content = match &event.scheme {
            EncryptedEventScheme::OlmV1Curve25519AesSha2(content) => content,
            _ => {
                return Decryption::Finished(
                    Err(OlmError::EventError(EventError::UnsupportedAlgorithm)),
                );
            },
        };
        let own_key: &String = self.inner.identity_keys().curve25519();
        // Try to find a ciphertext that was meant for our device.
        let ciphertext: &CiphertextInfo = match content.ciphertext.get(own_key.as_str()) {
            Some(ciphertext) => ciphertext,
            None => {
                return Decryption::Finished(
                    Err(OlmError::EventError(EventError::MissingCiphertext)),
                );
            },
        };
        if ciphertext.message_type > 255 {
            return Decryption::Finished(
                Err(OlmError::EventError(EventError::UnsupportedOlmType)),
            );
        }
        let message_type: u8 = ciphertext.message_type as u8;
        let message_hash = OlmMessageHash::new(
            &content.sender_key,
            message_type,
            &ciphertext.body,
        );
        // Create a OlmMessage from the ciphertext and the type.
        match OlmMessage::from_type_and_ciphertext(
            message_type as usize,
            ciphertext.body.clone(),
        ) {
            Ok(message) => Decryption::LoadSessions(
                LoadSessions {
                    message: ReceivedMessage {
                        sender: event.sender.clone(),
                        sender_key: content.sender_key.clone(),
                        message,
                        message_hash,
                    },
                },
            ),
            Err(_) => Decryption::Finished(
                Err(OlmError::EventError(EventError::UnsupportedOlmType)),
            ),
        }
    }
}

} // verus!
