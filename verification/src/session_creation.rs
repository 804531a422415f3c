//! Creating Olm sessions with other devices.
//!
//! An outbound session is created in steps. Between them, outside work is due:
//! to verify the signature of a one-time key, and to run the Olm key agreement.
use vstd::prelude::*;
use vstd::string::*;

use crate::account::{AccountView, ReadOnlyAccount};
use crate::error::{
    OlmSessionError, SessionCreationError, SessionCreationErrorView, SignatureError,
};
use crate::identifiers::{device_key_id, key_id, lemma_key_ids_differ, DeviceKeyAlgorithm};
use crate::keys::{
    OneTimeKey, OneTimeKeyView, ReadOnlyDevice, ReadOnlyDeviceView, SignedKey, SignedKeyView,
};
use crate::session::{Session, SessionView};
use crate::signing::{lemma_one_time_keys_are_signed, one_time_key_json, one_time_key_payload};
use crate::string_map::{in_key_order, StringMap};

verus! {

impl AccountView {
    /// A new session of the account with another one.
    pub open spec fn session(
        self,
        their_identity_key: Seq<char>,
        session_id: Seq<char>,
        now: std::time::Instant,
    ) -> SessionView {
        SessionView {
            user_id: self.user_id,
            device_id: self.device_id,
            our_identity_keys: self.identity_keys,
            session_id,
            sender_key: their_identity_key,
            creation_time: now,
            last_use_time: now,
        }
    }

    /// The device that the account stands for.
    pub open spec fn device(self) -> ReadOnlyDeviceView {
        ReadOnlyDeviceView {
            user_id: self.user_id,
            device_id: self.device_id,
            keys: self.unsigned_device_keys().keys,
        }
    }
}

impl ReadOnlyDevice {
    /// The device that an account stands for.
    pub fn from_account(account: &ReadOnlyAccount) -> (r: Self)
        ensures
            r@ == account@.device(),
    {
        let device_keys = account.unsigned_device_keys();
        ReadOnlyDevice::new(device_keys.user_id, device_keys.device_id, device_keys.keys)
    }
}

/// The one-time key with the smallest ID, where there is one.
pub open spec fn first_key(key_map: StringMap<OneTimeKey>) -> Option<OneTimeKeyView> {
    if key_map.keys().len() == 0 {
        None
    } else {
        Some(key_map@[key_map.keys()[0]]@)
    }
}

/// The key with which a session can be created, or the reason why none can.
pub open spec fn signed_key(device: ReadOnlyDeviceView, first: Option<OneTimeKeyView>) -> Result<
    SignedKeyView,
    SessionCreationErrorView,
> {
    match first {
        None => Err(
            SessionCreationErrorView::OneTimeKeyMissing(device.user_id, device.device_id),
        ),
        Some(OneTimeKeyView::SignedKey(key)) => Ok(key),
        Some(OneTimeKeyView::Key(_)) => Err(
            SessionCreationErrorView::OneTimeKeyNotSigned(device.user_id, device.device_id),
        ),
        Some(OneTimeKeyView::Unknown) => Err(
            SessionCreationErrorView::OneTimeKeyUnknown(device.user_id, device.device_id),
        ),
    }
}

/// The identity key of the device, or the reason why no session can be
/// created, once it is known whether the signature of the key holds.
pub open spec fn identity_key(
    device: ReadOnlyDeviceView,
    verified: Result<(), SignatureError>,
) -> Result<Seq<char>, SessionCreationErrorView> {
    match verified {
        Err(error) => Err(
            SessionCreationErrorView::InvalidSignature(device.user_id, device.device_id, error),
        ),
        Ok(_) => match device.get_key(DeviceKeyAlgorithm::Curve25519) {
            Some(key) => Ok(key),
            None => Err(
                SessionCreationErrorView::DeviceMissingCurveKey(device.user_id, device.device_id),
            ),
        },
    }
}

/// The signing key of a device and its signature of a one-time key, or the
/// reason why there is nothing to verify.
pub open spec fn signature_by(device: ReadOnlyDeviceView, key: SignedKeyView) -> Result<
    (Seq<char>, Seq<char>),
    SignatureError,
> {
    let id = key_id(DeviceKeyAlgorithm::Ed25519, device.device_id);
    match device.get_key(DeviceKeyAlgorithm::Ed25519) {
        None => Err(SignatureError::MissingSigningKey),
        Some(signing_key) => if key.signatures.contains_key(device.user_id)
            && key.signatures[device.user_id].contains_key(id) {
            Ok((signing_key, key.signatures[device.user_id][id]))
        } else {
            Err(SignatureError::NoSignatureFound)
        },
    }
}

/// A signature that is to be verified.
pub struct SignatureToVerify {
    /// The ed25519 key that is said to have made the signature.
    pub signing_key: String,
    /// The text that is said to be signed.
    pub text: String,
    /// The signature.
    pub signature: String,
}

/// A one-time key whose signature is to be verified.
pub struct KeyToVerify<'a> {
    device: ReadOnlyDevice,
    key: &'a SignedKey,
}

/// The model of `KeyToVerify`.
pub ghost struct KeyToVerifyView {
    pub device: ReadOnlyDeviceView,
    pub key: SignedKeyView,
}

impl<'a> View for KeyToVerify<'a> {
    type V = KeyToVerifyView;

    closed spec fn view(&self) -> KeyToVerifyView {
        KeyToVerifyView { device: self.device@, key: self.key@ }
    }
}

/// A session that is to be created.
pub struct SessionToCreate<'a> {
    device: ReadOnlyDevice,
    identity_key: String,
    key: &'a SignedKey,
}

/// The model of `SessionToCreate`.
pub ghost struct SessionToCreateView {
    pub device: ReadOnlyDeviceView,
    pub identity_key: Seq<char>,
    pub key: SignedKeyView,
}

impl<'a> View for SessionToCreate<'a> {
    type V = SessionToCreateView;

    closed spec fn view(&self) -> SessionToCreateView {
        SessionToCreateView {
            device: self.device@,
            identity_key: self.identity_key@,
            key: self.key@,
        }
    }
}

impl<'a> KeyToVerify<'a> {
    /// The device that the key is said to be of.
    pub fn device(&self) -> (r: &ReadOnlyDevice)
        ensures
            r@ == self@.device,
    {
        &self.device
    }

    /// The key with its signatures.
    pub fn key(&self) -> (r: &SignedKey)
        ensures
            r@ == self@.key,
    {
        self.key
    }

    /// What is to be verified: the signature that the device made of the key,
    /// or the reason why there is none.
    pub fn signature(&self) -> (r: Result<SignatureToVerify, SignatureError>)
        ensures
            match (signature_by(self@.device, self@.key), r) {
                (Ok((signing_key, signature)), Ok(s)) => {
                    &&& s.signing_key@ == signing_key
                    &&& s.text@ == one_time_key_json(self@.key.key)
                    &&& s.signature@ == signature
                },
                (Err(error), Err(e)) => e == error,
                _ => false,
            },
    {
        let signing_key: String = match self.device.get_key(DeviceKeyAlgorithm::Ed25519) {
            Some(key) => key.clone(),
            None => {
                return Err(SignatureError::MissingSigningKey);
            },
        };
        let by_key: &StringMap<String> = match self.key.signatures.get(
            self.device.user_id().as_str(),
        ) {
            Some(by_key) => by_key,
            None => {
                return Err(SignatureError::NoSignatureFound);
            },
        };
        let id: String = device_key_id(
            DeviceKeyAlgorithm::Ed25519,
            self.device.device_id().as_str(),
        );
        match by_key.get(id.as_str()) {
            Some(signature) => Ok(
                SignatureToVerify {
                    signing_key,
                    text: one_time_key_payload(self.key.key.as_str()),
                    signature: signature.clone(),
                },
            ),
            None => Err(SignatureError::NoSignatureFound),
        }
    }

    /// Goes on once it is known whether the signature of the key holds.
    pub fn verified(self, verified: Result<(), SignatureError>) -> (r: Result<
        SessionToCreate<'a>,
        SessionCreationError,
    >)
        ensures
            match (identity_key(self@.device, verified), r) {
                (Ok(identity_key), Ok(next)) => next@ == (SessionToCreateView {
                    device: self@.device,
                    identity_key,
                    key: self@.key,
                }),
                (Err(error), Err(e)) => e@ == error,
                _ => false,
            },
    {
        match verified {
            Ok(_) => {},
            Err(error) => {
                return Err(
                    SessionCreationError::InvalidSignature(
                        self.device.user_id().clone(),
                        self.device.device_id().clone(),
                        error,
                    ),
                );
            },
        }
        let curve_key: String = match self.device.get_key(DeviceKeyAlgorithm::Curve25519) {
            Some(key) => key.clone(),
            None => {
                return Err(
                    SessionCreationError::DeviceMissingCurveKey(
                        self.device.user_id().clone(),
                        self.device.device_id().clone(),
                    ),
                );
            },
        };
        Ok(SessionToCreate { device: self.device, identity_key: curve_key, key: self.key })
    }
}

impl<'a> SessionToCreate<'a> {
    /// The curve25519 identity key of the device.
    pub fn identity_key(&self) -> (r: &String)
        ensures
            r@ == self@.identity_key,
    {
        &self.identity_key
    }

    /// The one-time key of the device.
    pub fn one_time_key(&self) -> (r: &String)
        ensures
            r@ == self@.key.key,
    {
        &self.key.key
    }

    /// Goes on once the Olm session has been created from the two keys, or has
    /// been refused.
    ///
    /// # Arguments
    ///
    /// * `account` - Our account.
    ///
    /// * `created` - The ID of the Olm session, or the error.
    ///
    /// * `now` - The present time.
    pub fn created(
        self,
        account: &ReadOnlyAccount,
        created: Result<String, OlmSessionError>,
        now: std::time::Instant,
    ) -> (r: Result<Session, SessionCreationError>)
        ensures
            match (created, r) {
                (Ok(session_id), Ok(session)) => session@ == account@.session(
                    self@.identity_key,
                    session_id@,
                    now,
                ),
                (Err(error), Err(e)) => e@ == SessionCreationErrorView::OlmError(
                    self@.device.user_id,
                    self@.device.device_id,
                    error,
                ),
                _ => false,
            },
    {
        match account.create_outbound_session_helper(&self.identity_key, created, now) {
            Ok(session) => Ok(session),
            Err(error) => Err(
                SessionCreationError::OlmError(
                    self.device.user_id().clone(),
                    self.device.device_id().clone(),
                    error,
                ),
            ),
        }
    }
}

impl ReadOnlyAccount {
    /// A new session with another account.
    fn new_session(
        &self,
        their_identity_key: &String,
        session_id: String,
        now: std::time::Instant,
    ) -> (r: Session)
        ensures
            r@ == self@.session(their_identity_key@, session_id@, now),
    {
        Session {
            user_id: self.user_id().clone(),
            device_id: self.device_id().clone(),
            our_identity_keys: self.identity_keys().clone(),
            session_id,
            sender_key: their_identity_key.clone(),
            creation_time: now,
            last_use_time: now,
        }
    }

    /// Create a new session with another account given a one-time key.
    ///
    /// Returns the newly created session or a `OlmSessionError` if creating a
    /// session failed.
    ///
    /// # Arguments
    /// * `their_identity_key` - The other account's identity/curve25519 key.
    ///
    /// * `created` - The ID of the Olm session that was created from the two
    /// keys, or the error.
    ///
    /// * `now` - The present time.
    pub fn create_outbound_session_helper(
        &self,
        their_identity_key: &String,
        created: Result<String, OlmSessionError>,
        now: std::time::Instant,
    ) -> (r: Result<Session, OlmSessionError>)
        ensures
            match (created, r) {
                (Ok(session_id), Ok(session)) => session@ == self@.session(
                    their_identity_key@,
                    session_id@,
                    now,
                ),
                (Err(error), Err(e)) => e == error,
                _ => false,
            },
    {
        match created {
            Ok(session_id) => Ok(self.new_session(their_identity_key, session_id, now)),
            Err(error) => Err(error),
        }
    }

    /// Begin to create a new session with another account given a one-time key
    /// and a device.
    ///
    /// # Arguments
    /// * `device` - The other account's device.
    ///
    /// * `key_map` - A map from the algorithm and device id to the one-time key
    ///   that the other account created and shared with us.
    pub fn create_outbound_session<'a>(
        &self,
        device: ReadOnlyDevice,
        key_map: &'a StringMap<OneTimeKey>,
    ) -> (r: Result<KeyToVerify<'a>, SessionCreationError>)
        ensures
            match (signed_key(device@, first_key(*key_map)), r) {
                (Ok(key), Ok(next)) => next@ == (KeyToVerifyView { device: device@, key }),
                (Err(error), Err(e)) => e@ == error,
                _ => false,
            },
    {
        let one_time_key: &'a OneTimeKey = match key_map.first() {
            Some(key) => key,
            None => {
                return Err(
                    SessionCreationError::OneTimeKeyMissing(
                        device.user_id().clone(),
                        device.device_id().clone(),
                    ),
                );
            },
        };
        match one_time_key {
            OneTimeKey::SignedKey(key) => Ok(KeyToVerify { device, key }),
            OneTimeKey::Key(_) => Err(
                SessionCreationError::OneTimeKeyNotSigned(
                    device.user_id().clone(),
                    device.device_id().clone(),
                ),
            ),
            _ => Err(
                SessionCreationError::OneTimeKeyUnknown(
                    device.user_id().clone(),
                    device.device_id().clone(),
                ),
            ),
        }
    }

    /// Create a new session with another account given a pre-key Olm message.
    ///
    /// Returns the newly created session or a `OlmSessionError` if creating a
    /// session failed.
    ///
    /// # Arguments
    /// * `their_identity_key` - The other account's identitiy/curve25519 key.
    ///
    /// * `created` - The ID of the Olm session that was created from the
    /// message, or the error. The one-time key that the message used has been
    /// removed from the account.
    ///
    /// * `now` - The present time.
    pub fn create_inbound_session(
        &self,
        their_identity_key: &String,
        created: Result<String, OlmSessionError>,
        now: std::time::Instant,
    ) -> (r: Result<Session, OlmSessionError>)
        ensures
            match (created, r) {
                (Ok(session_id), Ok(session)) => session@ == self@.session(
                    their_identity_key@,
                    session_id@,
                    now,
                ),
                (Err(error), Err(e)) => e == error,
                _ => false,
            },
    {
        match created {
            Ok(session_id) => Ok(self.new_session(their_identity_key, session_id, now)),
            Err(error) => Err(error),
        }
    }
}

/// What comes of creating an outbound session: the steps one after the other.
pub open spec fn outbound_session(
    account: AccountView,
    device: ReadOnlyDeviceView,
    first: Option<OneTimeKeyView>,
    verified: Result<(), SignatureError>,
    created: Result<Seq<char>, OlmSessionError>,
    now: std::time::Instant,
) -> Result<SessionView, SessionCreationErrorView> {
    match signed_key(device, first) {
        Err(error) => Err(error),
        Ok(_) => match identity_key(device, verified) {
            Err(error) => Err(error),
            Ok(key) => match created {
                Err(error) => Err(
                    SessionCreationErrorView::OlmError(device.user_id, device.device_id, error),
                ),
                Ok(session_id) => Ok(account.session(key, session_id, now)),
            },
        },
    }
}

/// A session is created exactly if the first one-time key is signed, its
/// signature holds, the device has a curve25519 key and Olm agrees. It is then
/// a session with that curve25519 key. Otherwise the error names the device.
pub proof fn lemma_outbound_session(
    account: AccountView,
    device: ReadOnlyDeviceView,
    first: Option<OneTimeKeyView>,
    verified: Result<(), SignatureError>,
    created: Result<Seq<char>, OlmSessionError>,
    now: std::time::Instant,
)
    ensures
        outbound_session(account, device, first, verified, created, now) is Ok <==> {
            &&& first matches Some(OneTimeKeyView::SignedKey(_))
            &&& verified is Ok
            &&& device.get_key(DeviceKeyAlgorithm::Curve25519) is Some
            &&& created is Ok
        },
        match outbound_session(account, device, first, verified, created, now) {
            Ok(session) => {
                &&& device.get_key(DeviceKeyAlgorithm::Curve25519) == Some(session.sender_key)
                &&& Ok::<Seq<char>, OlmSessionError>(session.session_id) == created
                &&& session.our_identity_keys == account.identity_keys
            },
            Err(error) => error.device() == (device.user_id, device.device_id),
        },
{
}

/// The device of an account has the identity keys of the account.
pub proof fn lemma_device_keys(account: AccountView)
    ensures
        account.device().get_key(DeviceKeyAlgorithm::Curve25519) == Some(
            account.identity_keys.curve25519,
        ),
        account.device().get_key(DeviceKeyAlgorithm::Ed25519) == Some(
            account.identity_keys.ed25519,
        ),
        account.device().get_key(DeviceKeyAlgorithm::SignedCurve25519) is None,
{
    let id = account.device_id;
    lemma_key_ids_differ(DeviceKeyAlgorithm::Curve25519, DeviceKeyAlgorithm::Ed25519, id, id);
    lemma_key_ids_differ(DeviceKeyAlgorithm::SignedCurve25519, DeviceKeyAlgorithm::Ed25519, id, id);
    lemma_key_ids_differ(
        DeviceKeyAlgorithm::SignedCurve25519,
        DeviceKeyAlgorithm::Curve25519,
        id,
        id,
    );
}

/// Where two accounts create a session with each other, from the device of the
/// other one, each session is one with the identity key of the other account.
pub proof fn lemma_session_pair(
    ours: AccountView,
    theirs: AccountView,
    key: SignedKeyView,
    our_id: Seq<char>,
    their_id: Seq<char>,
    now: std::time::Instant,
)
    ensures
        outbound_session(
            ours,
            theirs.device(),
            Some(OneTimeKeyView::SignedKey(key)),
            Ok(()),
            Ok(our_id),
            now,
        ) == Ok::<SessionView, SessionCreationErrorView>(
            ours.session(theirs.identity_keys.curve25519, our_id, now),
        ),
        match ours.device().get_key(DeviceKeyAlgorithm::Curve25519) {
            Some(their_identity_key) => theirs.session(their_identity_key, their_id, now).sender_key
                == ours.identity_keys.curve25519,
            None => false,
        },
{
    lemma_device_keys(ours);
    lemma_device_keys(theirs);
}

/// Whether the signature of a one-time key holds for a device, where a test
/// tells which signatures of a text a signing key made.
pub open spec fn verdict(
    device: ReadOnlyDeviceView,
    key: SignedKeyView,
    accepts: spec_fn(Seq<char>, Seq<char>, Seq<char>) -> bool,
) -> Result<(), SignatureError> {
    match signature_by(device, key) {
        Err(error) => Err(error),
        Ok((signing_key, signature)) => if accepts(
            signing_key,
            one_time_key_json(key.key),
            signature,
        ) {
            Ok(())
        } else {
            Err(SignatureError::VerificationError)
        },
    }
}

/// One-time keys that an account has signed create a session with the device of
/// that account, if the signatures that it makes are accepted with its signing
/// key. With the device of another user they create none, whatever is accepted:
/// the error is then that the signature does not hold, and it names the device
/// of the other user.
pub proof fn lemma_one_time_keys_are_of_their_device(
    ours: AccountView,
    theirs: AccountView,
    other: AccountView,
    one_time_keys: StringMap<String>,
    signatures: Seq<String>,
    key_map: StringMap<OneTimeKey>,
    sign: spec_fn(Seq<char>) -> Seq<char>,
    accepts: spec_fn(Seq<char>, Seq<char>, Seq<char>) -> bool,
    session_id: Seq<char>,
    now: std::time::Instant,
)
    requires
        in_key_order(key_map.keys(), key_map@),
        key_map.keys().len() > 0,
        theirs.signed_one_time_keys(one_time_keys, signatures, key_map@),
        forall|i: int|
            #![trigger one_time_keys.keys()[i]]
            0 <= i < one_time_keys.keys().len() ==> signatures[i]@ == sign(
                one_time_key_json(one_time_keys@[one_time_keys.keys()[i]]@),
            ),
        other.user_id != theirs.user_id,
    ensures
        first_key(key_map) matches Some(OneTimeKeyView::SignedKey(key)) && {
            &&& (forall|text: Seq<char>|
                accepts(theirs.identity_keys.ed25519, text, #[trigger] sign(text)))
                ==> outbound_session(
                ours,
                theirs.device(),
                first_key(key_map),
                verdict(theirs.device(), key, accepts),
                Ok(session_id),
                now,
            ) == Ok::<SessionView, SessionCreationErrorView>(
                ours.session(theirs.identity_keys.curve25519, session_id, now),
            )
            &&& outbound_session(
                ours,
                other.device(),
                first_key(key_map),
                verdict(other.device(), key, accepts),
                Ok(session_id),
                now,
            ) == Err::<SessionView, SessionCreationErrorView>(
                SessionCreationErrorView::InvalidSignature(
                    other.user_id,
                    other.device_id,
                    SignatureError::NoSignatureFound,
                ),
            )
        },
{
    lemma_device_keys(theirs);
    lemma_device_keys(other);
    lemma_one_time_keys_are_signed(theirs, one_time_keys, signatures, key_map@, sign);
    let id = key_map.keys()[0];
    assert(key_map@.contains_key(id));
}

/// The signatures that an account made of its one-time keys are those that are
/// verified for its device, with the signing key of the account, each over the
/// text that was signed.
pub proof fn lemma_own_signatures_are_verified(
    account: AccountView,
    one_time_keys: StringMap<String>,
    signatures: Seq<String>,
    table: Map<Seq<char>, OneTimeKey>,
    sign: spec_fn(Seq<char>) -> Seq<char>,
    accepts: spec_fn(Seq<char>, Seq<char>, Seq<char>) -> bool,
)
    requires
        account.signed_one_time_keys(one_time_keys, signatures, table),
        forall|i: int|
            #![trigger one_time_keys.keys()[i]]
            0 <= i < one_time_keys.keys().len() ==> signatures[i]@ == sign(
                one_time_key_json(one_time_keys@[one_time_keys.keys()[i]]@),
            ),
    ensures
        forall|id: Seq<char>| #[trigger]
            table.contains_key(id) ==> match table[id]@ {
                OneTimeKeyView::SignedKey(signed) => {
                    let text = one_time_key_json(signed.key);
                    &&& signature_by(account.device(), signed) == Ok::<
                        (Seq<char>, Seq<char>),
                        SignatureError,
                    >((account.identity_keys.ed25519, sign(text)))
                    &&& verdict(account.device(), signed, accepts) is Ok <==> accepts(
                        account.identity_keys.ed25519,
                        text,
                        sign(text),
                    )
                },
                _ => false,
            },
{
    lemma_device_keys(account);
    lemma_one_time_keys_are_signed(account, one_time_keys, signatures, table, sign);
}

} // verus!
