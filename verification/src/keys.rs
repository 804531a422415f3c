//! The public keys of accounts and devices.
use vstd::prelude::*;
use vstd::string::*;

use crate::identifiers::{device_key_id, key_id, DeviceKeyAlgorithm, EventEncryptionAlgorithm, UserId};
use crate::string_map::StringMap;

verus! {

/// The public identity keys of an account.
#[derive(Debug)]
pub struct IdentityKeys {
    curve25519: String,
    ed25519: String,
}

/// The model of `IdentityKeys`.
pub ghost struct IdentityKeysView {
    pub curve25519: Seq<char>,
    pub ed25519: Seq<char>,
}

impl View for IdentityKeys {
    type V = IdentityKeysView;

    closed spec fn view(&self) -> IdentityKeysView {
        IdentityKeysView { curve25519: self.curve25519@, ed25519: self.ed25519@ }
    }
}

impl IdentityKeys {
    /// The pair of a curve25519 key and an ed25519 key.
    pub fn new(curve25519: String, ed25519: String) -> (r: Self)
        ensures
            r@ == (IdentityKeysView { curve25519: curve25519@, ed25519: ed25519@ }),
    {
        IdentityKeys { curve25519, ed25519 }
    }

    /// The public part of the curve25519 key.
    pub fn curve25519(&self) -> (r: &String)
        ensures
            r@ == self@.curve25519,
    {
        &self.curve25519
    }

    /// The public part of the ed25519 key.
    pub fn ed25519(&self) -> (r: &String)
        ensures
            r@ == self@.ed25519,
    {
        &self.ed25519
    }

    /// Whether two accounts have the same identity keys.
    pub fn same_as(&self, other: &IdentityKeys) -> (r: bool)
        ensures
            r == (self@ == other@),
    {
        self.curve25519 == other.curve25519 && self.ed25519 == other.ed25519
    }
}

impl Clone for IdentityKeys {
    fn clone(&self) -> (r: Self)
        ensures
            r == *self,
    {
        IdentityKeys { curve25519: self.curve25519.clone(), ed25519: self.ed25519.clone() }
    }
}

/// The texts that a table holds.
pub open spec fn text_table(table: Map<Seq<char>, String>) -> Map<Seq<char>, Seq<char>> {
    table.map_values(|text: String| text@)
}

/// Signatures, by the user and the key that made each.
pub type Signatures = StringMap<StringMap<String>>;

/// The texts of signatures.
pub open spec fn signature_table(signatures: Map<Seq<char>, StringMap<String>>) -> Map<
    Seq<char>,
    Map<Seq<char>, Seq<char>>,
> {
    signatures.map_values(|by_key: StringMap<String>| text_table(by_key@))
}

/// The one signature that a device of a user makes with its ed25519 key.
pub open spec fn signed_by(user_id: Seq<char>, device_id: Seq<char>, signature: Seq<char>) -> Map<
    Seq<char>,
    Map<Seq<char>, Seq<char>>,
> {
    map![user_id => map![key_id(DeviceKeyAlgorithm::Ed25519, device_id) => signature]]
}

/// A table with the one signature that a device of a user made.
pub fn signature_of(user_id: &UserId, device_id: &str, signature: String) -> (r: Signatures)
    ensures
        signature_table(r@) == signed_by(user_id@, device_id@, signature@),
{
    let mut by_key: StringMap<String> = StringMap::new();
    by_key.insert(device_key_id(DeviceKeyAlgorithm::Ed25519, device_id), signature);
    assert(text_table(by_key@)
        =~= map![key_id(DeviceKeyAlgorithm::Ed25519, device_id@) => signature@]);
    let mut signatures: Signatures = StringMap::new();
    signatures.insert(user_id.as_str().to_owned(), by_key);
    assert(signature_table(signatures@) =~= signed_by(user_id@, device_id@, signature@));
    signatures
}

/// The public keys of a device, as they are uploaded.
pub struct DeviceKeys {
    /// The user that the device belongs to.
    pub user_id: UserId,
    /// The ID of the device.
    pub device_id: String,
    /// The encryption algorithms that the device supports.
    pub algorithms: Vec<EventEncryptionAlgorithm>,
    /// The identity keys by their IDs.
    pub keys: StringMap<String>,
    /// The signatures of the keys.
    pub signatures: Signatures,
}

/// The model of `DeviceKeys`.
#[verifier::ext_equal]
pub ghost struct DeviceKeysView {
    pub user_id: Seq<char>,
    pub device_id: Seq<char>,
    pub algorithms: Seq<Seq<char>>,
    pub keys: Map<Seq<char>, Seq<char>>,
    pub signatures: Map<Seq<char>, Map<Seq<char>, Seq<char>>>,
}

impl View for DeviceKeys {
    type V = DeviceKeysView;

    open spec fn view(&self) -> DeviceKeysView {
        DeviceKeysView {
            user_id: self.user_id@,
            device_id: self.device_id@,
            algorithms: Seq::new(self.algorithms@.len(), |i: int| self.algorithms@[i]@),
            keys: text_table(self.keys@),
            signatures: signature_table(self.signatures@),
        }
    }
}

/// A key with its signatures.
pub struct SignedKey {
    /// The key.
    pub key: String,
    /// The signatures of the key.
    pub signatures: Signatures,
}

/// The model of `SignedKey`.
#[verifier::ext_equal]
pub ghost struct SignedKeyView {
    pub key: Seq<char>,
    pub signatures: Map<Seq<char>, Map<Seq<char>, Seq<char>>>,
}

impl View for SignedKey {
    type V = SignedKeyView;

    open spec fn view(&self) -> SignedKeyView {
        SignedKeyView { key: self.key@, signatures: signature_table(self.signatures@) }
    }
}

/// A one-time key.
pub enum OneTimeKey {
    /// A key with its signatures.
    SignedKey(SignedKey),
    /// A bare key.
    Key(String),
    /// Anything else.
    Unknown,
}

/// The model of `OneTimeKey`.
#[verifier::ext_equal]
pub ghost enum OneTimeKeyView {
    SignedKey(SignedKeyView),
    Key(Seq<char>),
    Unknown,
}

impl View for OneTimeKey {
    type V = OneTimeKeyView;

    open spec fn view(&self) -> OneTimeKeyView {
        match self {
            OneTimeKey::SignedKey(key) => OneTimeKeyView::SignedKey(key@),
            OneTimeKey::Key(key) => OneTimeKeyView::Key(key@),
            OneTimeKey::Unknown => OneTimeKeyView::Unknown,
        }
    }
}

/// A device of some account, with its public keys.
pub struct ReadOnlyDevice {
    user_id: UserId,
    device_id: String,
    keys: StringMap<String>,
}

/// The model of `ReadOnlyDevice`.
#[verifier::ext_equal]
pub ghost struct ReadOnlyDeviceView {
    pub user_id: Seq<char>,
    pub device_id: Seq<char>,
    pub keys: Map<Seq<char>, Seq<char>>,
}

impl View for ReadOnlyDevice {
    type V = ReadOnlyDeviceView;

    closed spec fn view(&self) -> ReadOnlyDeviceView {
        ReadOnlyDeviceView {
            user_id: self.user_id@,
            device_id: self.device_id@,
            keys: text_table(self.keys@),
        }
    }
}

impl ReadOnlyDeviceView {
    /// The key of an algorithm, where the device has one.
    pub open spec fn get_key(self, algorithm: DeviceKeyAlgorithm) -> Option<Seq<char>> {
        let id = key_id(algorithm, self.device_id);
        if self.keys.contains_key(id) {
            Some(self.keys[id])
        } else {
            None
        }
    }
}

impl ReadOnlyDevice {
    /// A device with its keys by their IDs.
    pub fn new(user_id: UserId, device_id: String, keys: StringMap<String>) -> (r: Self)
        ensures
            r@ == (ReadOnlyDeviceView {
                user_id: user_id@,
                device_id: device_id@,
                keys: text_table(keys@),
            }),
    {
        ReadOnlyDevice { user_id, device_id, keys }
    }

    /// The user that the device belongs to.
    pub fn user_id(&self) -> (r: &UserId)
        ensures
            r@ == self@.user_id,
    {
        &self.user_id
    }

    /// The ID of the device.
    pub fn device_id(&self) -> (r: &String)
        ensures
            r@ == self@.device_id,
    {
        &self.device_id
    }

    /// The keys of the device by their IDs.
    pub fn keys(&self) -> (r: &StringMap<String>)
        ensures
            text_table(r@) == self@.keys,
    {
        &self.keys
    }

    /// The key of an algorithm, where the device has one.
    pub fn get_key(&self, algorithm: DeviceKeyAlgorithm) -> (r: Option<&String>)
        ensures
            match r {
                Some(key) => self@.get_key(algorithm) == Some(key@),
                None => self@.get_key(algorithm) is None,
            },
    {
        let id: String = device_key_id(algorithm, self.device_id.as_str());
        self.keys.get(id.as_str())
    }
}

} // verus!
