//! Pairs of group sessions.
use vstd::prelude::*;
use vstd::string::*;

use crate::account::{AccountView, ReadOnlyAccount};
use crate::identifiers::EventEncryptionAlgorithm;
use crate::keys::{IdentityKeys, IdentityKeysView};

verus! {

/// Who can see the history of a room.
#[derive(Debug)]
pub enum HistoryVisibility {
    Invited,
    Joined,
    Shared,
    WorldReadable,
    Custom(String),
}

impl Clone for HistoryVisibility {
    fn clone(&self) -> (r: Self)
        ensures
            r == *self,
    {
        match self {
            HistoryVisibility::Invited => HistoryVisibility::Invited,
            HistoryVisibility::Joined => HistoryVisibility::Joined,
            HistoryVisibility::Shared => HistoryVisibility::Shared,
            HistoryVisibility::WorldReadable => HistoryVisibility::WorldReadable,
            HistoryVisibility::Custom(name) => HistoryVisibility::Custom(name.clone()),
        }
    }
}

/// How the messages of a room are encrypted.
#[derive(Debug)]
pub struct EncryptionSettings {
    /// The algorithm of the group session.
    pub algorithm: EventEncryptionAlgorithm,
    /// After how many milliseconds the session is replaced.
    pub rotation_period_ms: u64,
    /// After how many messages the session is replaced.
    pub rotation_period_msgs: u64,
    /// Who can see the history of the room.
    pub history_visibility: HistoryVisibility,
}

/// The session that encrypts the messages of a room, without its ratchet.
#[derive(Debug)]
pub struct OutboundGroupSession {
    /// The device of our account.
    pub device_id: String,
    /// The identity keys of our account.
    pub account_identity_keys: IdentityKeys,
    /// The room.
    pub room_id: String,
    /// How messages are encrypted.
    pub settings: EncryptionSettings,
}

/// The model of `OutboundGroupSession`.
pub ghost struct OutboundGroupSessionView {
    pub device_id: Seq<char>,
    pub account_identity_keys: IdentityKeysView,
    pub room_id: Seq<char>,
    pub settings: EncryptionSettings,
}

impl View for OutboundGroupSession {
    type V = OutboundGroupSessionView;

    open spec fn view(&self) -> OutboundGroupSessionView {
        OutboundGroupSessionView {
            device_id: self.device_id@,
            account_identity_keys: self.account_identity_keys@,
            room_id: self.room_id@,
            settings: self.settings,
        }
    }
}

/// The session that decrypts the messages of a room, without its ratchet.
#[derive(Debug)]
pub struct InboundGroupSession {
    /// The curve25519 key of the account that encrypts.
    pub sender_key: String,
    /// The ed25519 key of the account that encrypts.
    pub signing_key: String,
    /// The room.
    pub room_id: String,
    /// The key that the ratchet starts from.
    pub session_key: String,
    /// Who can see the history of the room, where it is known.
    pub history_visibility: Option<HistoryVisibility>,
}

impl Clone for InboundGroupSession {
    fn clone(&self) -> (r: Self)
        ensures
            r == *self,
    {
        InboundGroupSession {
            sender_key: self.sender_key.clone(),
            signing_key: self.signing_key.clone(),
            room_id: self.room_id.clone(),
            session_key: self.session_key.clone(),
            history_visibility: match &self.history_visibility {
                Some(visibility) => Some(visibility.clone()),
                None => None,
            },
        }
    }
}

/// The model of `InboundGroupSession`.
pub ghost struct InboundGroupSessionView {
    pub sender_key: Seq<char>,
    pub signing_key: Seq<char>,
    pub room_id: Seq<char>,
    pub session_key: Seq<char>,
    pub history_visibility: Option<HistoryVisibility>,
}

impl View for InboundGroupSession {
    type V = InboundGroupSessionView;

    open spec fn view(&self) -> InboundGroupSessionView {
        InboundGroupSessionView {
            sender_key: self.sender_key@,
            signing_key: self.signing_key@,
            room_id: self.room_id@,
            session_key: self.session_key@,
            history_visibility: self.history_visibility,
        }
    }
}

impl AccountView {
    /// The session with which the account encrypts the messages of a room.
    pub open spec fn outbound_group_session(
        self,
        room_id: Seq<char>,
        settings: EncryptionSettings,
    ) -> OutboundGroupSessionView {
        OutboundGroupSessionView {
            device_id: self.device_id,
            account_identity_keys: self.identity_keys,
            room_id,
            settings,
        }
    }
}

impl OutboundGroupSessionView {
    /// The session that decrypts what this one encrypts.
    pub open spec fn inbound(self, session_key: Seq<char>) -> InboundGroupSessionView {
        InboundGroupSessionView {
            sender_key: self.account_identity_keys.curve25519,
            signing_key: self.account_identity_keys.ed25519,
            room_id: self.room_id,
            session_key,
            history_visibility: Some(self.settings.history_visibility),
        }
    }
}

/// A pair of group sessions that is to be created, once there is a ratchet.
pub struct GroupSessionPair {
    outbound: OutboundGroupSession,
}

impl View for GroupSessionPair {
    type V = OutboundGroupSessionView;

    closed spec fn view(&self) -> OutboundGroupSessionView {
        self.outbound@
    }
}

impl GroupSessionPair {
    /// Goes on once the ratchet of the outbound session has been created.
    ///
    /// The ratchet of the inbound session is created from the same key. That the
    /// two have the same session ID, and that the one decrypts what the other
    /// encrypts, is not stated here: it lies in the ratchets.
    ///
    /// # Arguments
    ///
    /// * `session_key` - The key of the ratchet of the outbound session.
    pub fn created(self, session_key: String) -> (r: (OutboundGroupSession, InboundGroupSession))
        ensures
            r.0@ == self@,
            r.1@ == self@.inbound(session_key@),
    {
        let outbound: OutboundGroupSession = self.outbound;
        let inbound = InboundGroupSession {
            sender_key: outbound.account_identity_keys.curve25519().clone(),
            signing_key: outbound.account_identity_keys.ed25519().clone(),
            room_id: outbound.room_id.clone(),
            session_key,
            history_visibility: Some(outbound.settings.history_visibility.clone()),
        };
        (outbound, inbound)
    }
}

impl ReadOnlyAccount {
    /// Begin to create a group session pair.
    ///
    /// This session pair can be used to encrypt and decrypt messages meant for
    /// a large group of participants.
    ///
    /// The outbound session is used to encrypt messages while the inbound one
    /// is used to decrypt messages encrypted by the outbound one.
    ///
    /// Returns an empty error if the settings ask for another algorithm than
    /// Megolm.
    ///
    /// # Arguments
    ///
    /// * `room_id` - The ID of the room where the group session will be used.
    ///
    /// * `settings` - Settings determining the algorithm and rotation period of
    /// the outbound group session.
    pub fn create_group_session_pair(&self, room_id: &str, settings: EncryptionSettings) -> (r: Result<
        GroupSessionPair,
        (),
    >)
        ensures
            r is Ok <==> settings.algorithm is MegolmV1AesSha2,
            r matches Ok(pair) ==> pair@ == self@.outbound_group_session(room_id@, settings),
    {
        match &settings.algorithm {
            EventEncryptionAlgorithm::MegolmV1AesSha2 => {},
            _ => {
                return Err(());
            },
        }
        Ok(
            GroupSessionPair {
                outbound: OutboundGroupSession {
                    device_id: self.device_id().clone(),
                    account_identity_keys: self.identity_keys().clone(),
                    room_id: room_id.to_owned(),
                    settings,
                },
            },
        )
    }
}

/// The two sessions of a pair are for the same room and have the same key, and
/// the inbound one expects the identity keys of the account. The outbound one
/// keeps the settings, the inbound one their history visibility.
pub proof fn lemma_group_session_pair(
    account: AccountView,
    room_id: Seq<char>,
    settings: EncryptionSettings,
    session_key: Seq<char>,
)
    ensures
        ({
            let outbound = account.outbound_group_session(room_id, settings);
            let inbound = outbound.inbound(session_key);
            &&& outbound.room_id == room_id
            &&& inbound.room_id == room_id
            &&& outbound.account_identity_keys == account.identity_keys
            &&& inbound.sender_key == account.identity_keys.curve25519
            &&& inbound.signing_key == account.identity_keys.ed25519
            &&& outbound.settings == settings
            &&& inbound.history_visibility == Some(settings.history_visibility)
            &&& inbound.session_key == session_key
        }),
{
}

} // verus!
