//! What holds of the single steps of a decryption.
use vstd::prelude::*;

use crate::account::AccountView;
use crate::decryption::{
    after_check, after_load, after_match, after_save, created_id, decrypted_text, failed, loaded_count,
    no_session_left, parsed_text, received_message, stored, try_session, Changes, Decryption,
    DecryptionView, EncryptedEventScheme, EncryptedToDeviceEvent, OlmDecryptionInfo,
    OlmV1Curve25519AesSha2Content, ReceivedMessage, ReceivedMessageView, SessionAttempt,
};
use crate::error::{CryptoStoreError, EventErrorView, OlmError, OlmErrorView, OlmSessionError};
use crate::session::{message_hash, OlmMessageView, Session, SessionTypeView, SessionView};

verus! {

/// The message of an event is the ciphertext under our own curve25519 key, whole,
/// with its type: it comes from the sender of the event and the sender key, and
/// its hash is that of this ciphertext.
pub proof fn lemma_own_ciphertext_is_taken(
    own_key: Seq<char>,
    event: EncryptedToDeviceEvent,
    content: OlmV1Curve25519AesSha2Content,
)
    requires
        event.scheme == EncryptedEventScheme::OlmV1Curve25519AesSha2(content),
        content.ciphertext@.contains_key(own_key),
    ensures
        ({
            let own = content.ciphertext@[own_key];
            let result = received_message(own_key, event);
            &&& own.message_type == 0 ==> (result matches Ok(m) && m.message
                == OlmMessageView::PreKey(own.body@) && m.message_hash == message_hash(
                content.sender_key@,
                0,
                own.body@,
            ))
            &&& own.message_type == 1 ==> (result matches Ok(m) && m.message
                == OlmMessageView::Message(own.body@) && m.message_hash == message_hash(
                content.sender_key@,
                1,
                own.body@,
            ))
            &&& own.message_type > 1 ==> result == Err::<ReceivedMessageView, EventErrorView>(
                EventErrorView::UnsupportedOlmType,
            )
            &&& result matches Ok(m) ==> m.sender == event.sender@ && m.sender_key
                == content.sender_key@
        }),
{
}

/// What stands under other keys does not matter: two events from the same sender
/// that agree on the ciphertext under our key, or both have none, give the same.
pub proof fn lemma_other_ciphertexts_do_not_matter(
    own_key: Seq<char>,
    one: EncryptedToDeviceEvent,
    other: EncryptedToDeviceEvent,
    a: OlmV1Curve25519AesSha2Content,
    b: OlmV1Curve25519AesSha2Content,
)
    requires
        one.scheme == EncryptedEventScheme::OlmV1Curve25519AesSha2(a),
        other.scheme == EncryptedEventScheme::OlmV1Curve25519AesSha2(b),
        one.sender@ == other.sender@,
        a.sender_key@ == b.sender_key@,
        a.ciphertext@.contains_key(own_key) == b.ciphertext@.contains_key(own_key),
        a.ciphertext@.contains_key(own_key) ==> a.ciphertext@[own_key].body@
            == b.ciphertext@[own_key].body@ && a.ciphertext@[own_key].message_type
            == b.ciphertext@[own_key].message_type,
    ensures
        received_message(own_key, one) == received_message(own_key, other),
{
}

/// An event without a ciphertext under our key, and one that is not encrypted
/// with Olm, is refused, each with its error.
pub proof fn lemma_events_without_a_message(own_key: Seq<char>, event: EncryptedToDeviceEvent)
    ensures
        event.scheme matches EncryptedEventScheme::OlmV1Curve25519AesSha2(content)
            ==> !content.ciphertext@.contains_key(own_key) ==> received_message(own_key, event)
            == Err::<ReceivedMessageView, EventErrorView>(EventErrorView::MissingCiphertext),
        event.scheme is MegolmV1AesSha2 || event.scheme is Unknown ==> received_message(
            own_key,
            event,
        ) == Err::<ReceivedMessageView, EventErrorView>(EventErrorView::UnsupportedAlgorithm),
{
}

/// Where no session is left, a session is created from a pre-key message, and
/// another message is looked up.
pub proof fn lemma_when_no_session_is_left(message: ReceivedMessageView)
    ensures
        message.message is PreKey ==> no_session_left(message) == DecryptionView::CreateSession(
            message,
        ),
        message.message is Message ==> no_session_left(message) == DecryptionView::CheckReplay(
            message,
        ),
{
}

/// Every session up to the last is tried: a pre-key message is matched with it, a
/// normal one is decrypted with it. Behind the last none is left.
pub proof fn lemma_every_session_is_tried(message: ReceivedMessageView, index: int, count: int)
    ensures
        index < count && message.message is PreKey ==> try_session(message, index, count)
            == DecryptionView::MatchSession(SessionAttempt { message, index, count }),
        index < count && message.message is Message ==> try_session(message, index, count)
            == DecryptionView::DecryptSession(SessionAttempt { message, index, count }),
        index >= count && message.message is PreKey ==> try_session(message, index, count)
            == DecryptionView::CreateSession(message),
        index >= count && message.message is Message ==> try_session(message, index, count)
            == DecryptionView::CheckReplay(message),
{
}

/// The search begins with the first session of those that were loaded. Where
/// there is none, it is over. An error of the store ends the decryption.
pub proof fn lemma_search_begins(message: ReceivedMessageView, count: int, error: Seq<char>)
    requires
        count >= 0,
    ensures
        count > 0 && message.message is PreKey ==> after_load(message, Ok(Some(count)))
            == DecryptionView::MatchSession(SessionAttempt { message, index: 0, count }),
        count > 0 && message.message is Message ==> after_load(message, Ok(Some(count)))
            == DecryptionView::DecryptSession(SessionAttempt { message, index: 0, count }),
        message.message is PreKey ==> after_load(message, Ok(Some(0))) == after_load(
            message,
            Ok(None),
        ) && after_load(message, Ok(None)) == DecryptionView::CreateSession(message),
        message.message is Message ==> after_load(message, Ok(Some(0))) == after_load(
            message,
            Ok(None),
        ) && after_load(message, Ok(None)) == DecryptionView::CheckReplay(message),
        after_load(message, Err(error)) == DecryptionView::Finished(
            Err(OlmErrorView::Store(error)),
        ),
{
}

/// A session that a pre-key message was encrypted for decrypts it; for another
/// one the search goes on with the next; an error ends the decryption.
pub proof fn lemma_after_matching(
    message: ReceivedMessageView,
    index: int,
    count: int,
    error: OlmSessionError,
)
    requires
        message.message is PreKey,
    ensures
        after_match(message, index, count, Ok(true)) == DecryptionView::DecryptSession(
            SessionAttempt { message, index, count },
        ),
        index + 1 < count ==> after_match(message, index, count, Ok(false))
            == DecryptionView::MatchSession(SessionAttempt { message, index: index + 1, count }),
        index + 1 >= count ==> after_match(message, index, count, Ok(false))
            == DecryptionView::CreateSession(message),
        after_match(message, index, count, Err(error)) == DecryptionView::Finished(
            Err(OlmErrorView::OlmSession(error)),
        ),
{
}

/// A session that decrypts ends the search. One that refuses a pre-key message,
/// which was encrypted for it, ends it too, and the message is looked up. After
/// one that refuses a normal message the next is tried, and after the last of
/// them the message is looked up.
pub proof fn lemma_after_decrypting(
    account: AccountView,
    message: ReceivedMessageView,
    index: int,
    count: int,
    session: SessionView,
    plaintext: Seq<char>,
    error: OlmSessionError,
)
    ensures
        account.after_decrypt(message, index, count, Ok((session, plaintext)))
            == account.after_parse(
            message,
            SessionTypeView::Existing(session),
            account.parsed_event(message.sender, plaintext),
        ),
        message.message is PreKey ==> account.after_decrypt(message, index, count, Err(error))
            == DecryptionView::CheckReplay(message),
        message.message is Message && index + 1 < count ==> account.after_decrypt(
            message,
            index,
            count,
            Err(error),
        ) == DecryptionView::DecryptSession(SessionAttempt { message, index: index + 1, count }),
        message.message is Message && index + 1 >= count ==> account.after_decrypt(
            message,
            index,
            count,
            Err(error),
        ) == DecryptionView::CheckReplay(message),
{
}

/// A created session is one of our account with the sender key, and decrypts the
/// message. Where none could be created the message is looked up.
pub proof fn lemma_after_creating(
    account: AccountView,
    message: ReceivedMessageView,
    session_id: Seq<char>,
    now: std::time::Instant,
    error: OlmSessionError,
)
    ensures
        ({
            &&& account.after_create(message, Ok(session_id), now) matches DecryptionView::DecryptNew(
                attempt,
            )
            &&& attempt.message == message
            &&& attempt.session.user_id == account.user_id
            &&& attempt.session.device_id == account.device_id
            &&& attempt.session.our_identity_keys == account.identity_keys
            &&& attempt.session.session_id == session_id
            &&& attempt.session.sender_key == message.sender_key
            &&& attempt.session.creation_time == now
            &&& attempt.session.last_use_time == now
        }),
        account.after_create(message, Err(error), now) == DecryptionView::CheckReplay(message),
{
}

/// The text that a new session decrypted is read as that of a new session; an
/// error of it ends the decryption.
pub proof fn lemma_after_decrypting_with_a_new_session(
    account: AccountView,
    message: ReceivedMessageView,
    session: SessionView,
    plaintext: Seq<char>,
    error: OlmSessionError,
)
    ensures
        account.after_decrypt_new(message, Ok((session, plaintext))) == account.after_parse(
            message,
            SessionTypeView::New(session),
            account.parsed_event(message.sender, plaintext),
        ),
        account.after_decrypt_new(message, Err(error)) == DecryptionView::Finished(
            Err(OlmErrorView::OlmSession(error)),
        ),
{
}

/// An event that is taken ends the decryption: what comes out are the session,
/// the hash and the sender key of the message, the event and the signing key,
/// all whole, and nothing that is not known yet.
pub proof fn lemma_taken_event(
    account: AccountView,
    message: ReceivedMessageView,
    session: SessionTypeView,
    event: Seq<char>,
    signing_key: Seq<char>,
)
    ensures
        ({
            &&& account.after_parse(
                message,
                session,
                Ok((event, signing_key)),
            ) matches DecryptionView::Finished(Ok(info))
            &&& info.session == session
            &&& info.message_hash == message.message_hash
            &&& info.event == event
            &&& info.signing_key == signing_key
            &&& info.sender_key == message.sender_key
            &&& info.deserialized_event is None
            &&& info.inbound_group_session is None
        }),
{
}

/// Where an event is refused, the session that decrypted it is stored with the
/// error kept, and the account too exactly if the session is new.
pub proof fn lemma_session_of_a_refused_event_is_stored(
    account: AccountView,
    message: ReceivedMessageView,
    session: SessionView,
    error: OlmErrorView,
)
    ensures
        ({
            &&& account.after_parse(
                message,
                SessionTypeView::New(session),
                Err(error),
            ) matches DecryptionView::SaveSession(refused)
            &&& refused.error == error
            &&& refused.changes.account == Some(account)
            &&& refused.changes.sessions == seq![session]
        }),
        ({
            &&& account.after_parse(
                message,
                SessionTypeView::Existing(session),
                Err(error),
            ) matches DecryptionView::SaveSession(refused)
            &&& refused.error == error
            &&& refused.changes.account is None
            &&& refused.changes.sessions == seq![session]
        }),
{
}

/// The text that a session decrypted is read with the sender of the message.
pub proof fn lemma_text_is_read(
    account: AccountView,
    message: ReceivedMessageView,
    session: SessionTypeView,
    plaintext: Seq<char>,
)
    ensures
        account.after_plaintext(message, session, plaintext) == account.after_parse(
            message,
            session,
            account.parsed_event(message.sender, plaintext),
        ),
{
}

/// After the changes are stored decryption fails with the error that was kept,
/// or with that of the store.
pub proof fn lemma_after_storing(error: OlmErrorView, store: Seq<char>)
    ensures
        after_save(error, Ok(())) == DecryptionView::Finished(Err(error)),
        after_save(error, Err(store)) == DecryptionView::Finished(Err(OlmErrorView::Store(store))),
        failed(error) == DecryptionView::Finished(Err(error)),
{
}

/// A message that cannot be decrypted was replayed if its hash is known; if it
/// is not, the session is wedged. Both name the sender and the sender key.
pub proof fn lemma_after_looking_up(message: ReceivedMessageView, store: Seq<char>)
    ensures
        after_check(message, Ok(true)) == DecryptionView::Finished(
            Err(OlmErrorView::ReplayedMessage(message.sender, message.sender_key)),
        ),
        after_check(message, Ok(false)) == DecryptionView::Finished(
            Err(OlmErrorView::SessionWedged(message.sender, message.sender_key)),
        ),
        after_check(message, Err(store)) == DecryptionView::Finished(
            Err(OlmErrorView::Store(store)),
        ),
{
}

/// The models of what came of a step keep all of it.
pub proof fn lemma_answer_models(
    count: usize,
    known: bool,
    store: CryptoStoreError,
    session: Session,
    text: String,
    key: String,
    session_error: OlmSessionError,
    error: OlmError,
)
    ensures
        loaded_count(Ok(Some(count))) == Ok::<Option<int>, Seq<char>>(Some(count as int)),
        loaded_count(Ok(None)) == Ok::<Option<int>, Seq<char>>(None),
        loaded_count(Err(store)) == Err::<Option<int>, Seq<char>>(store.message@),
        stored(Ok::<bool, CryptoStoreError>(known)) == Ok::<bool, Seq<char>>(known),
        stored(Err::<bool, CryptoStoreError>(store)) == Err::<bool, Seq<char>>(store.message@),
        stored(Ok::<(), CryptoStoreError>(())) == Ok::<(), Seq<char>>(()),
        stored(Err::<(), CryptoStoreError>(store)) == Err::<(), Seq<char>>(store.message@),
        decrypted_text(Ok((session, text))) == Ok::<(SessionView, Seq<char>), OlmSessionError>(
            (session@, text@),
        ),
        decrypted_text(Err(session_error)) == Err::<(SessionView, Seq<char>), OlmSessionError>(
            session_error,
        ),
        created_id(Ok(text)) == Ok::<Seq<char>, OlmSessionError>(text@),
        created_id(Err(session_error)) == Err::<Seq<char>, OlmSessionError>(session_error),
        parsed_text(Ok((text, key))) == Ok::<(Seq<char>, Seq<char>), OlmErrorView>((text@, key@)),
        parsed_text(Err(error)) == Err::<(Seq<char>, Seq<char>), OlmErrorView>(error@),
{
}

/// The models of messages, results, changes and states have all that these hold.
pub proof fn lemma_decryption_models(
    message: ReceivedMessage,
    info: OlmDecryptionInfo,
    changes: Changes,
    error: OlmError,
    state: Decryption,
)
    ensures
        message@.sender == message.sender@,
        message@.sender_key == message.sender_key@,
        message@.message == message.message@,
        message@.message_hash == message.message_hash@,
        info@.session == info.session@,
        info@.message_hash == info.message_hash@,
        info@.deserialized_event == info.deserialized_event,
        info@.event == info.event@,
        info@.signing_key == info.signing_key@,
        info@.sender_key == info.sender_key@,
        info.inbound_group_session is None ==> info@.inbound_group_session is None,
        info.inbound_group_session matches Some(session) ==> info@.inbound_group_session == Some(
            session@,
        ),
        changes.account is None ==> changes@.account is None,
        changes.account matches Some(account) ==> changes@.account == Some(account@),
        changes@.sessions.len() == changes.sessions@.len(),
        forall|i: int|
            0 <= i < changes.sessions@.len() ==> #[trigger] changes@.sessions[i]
                == changes.sessions@[i]@,
        Decryption::Finished(Ok(info))@ == DecryptionView::Finished(Ok(info@)),
        Decryption::Finished(Err(error))@ == DecryptionView::Finished(Err(error@)),
        state matches Decryption::LoadSessions(s) ==> state@ == DecryptionView::LoadSessions(s@),
        state matches Decryption::MatchSession(s) ==> state@ == DecryptionView::MatchSession(s@),
        state matches Decryption::DecryptSession(s) ==> state@ == DecryptionView::DecryptSession(
            s@,
        ),
        state matches Decryption::CreateSession(s) ==> state@ == DecryptionView::CreateSession(s@),
        state matches Decryption::DecryptNew(s) ==> state@ == DecryptionView::DecryptNew(s@),
        state matches Decryption::SaveSession(s) ==> state@ == DecryptionView::SaveSession(s@),
        state matches Decryption::CheckReplay(s) ==> state@ == DecryptionView::CheckReplay(s@),
{
}

} // verus!
