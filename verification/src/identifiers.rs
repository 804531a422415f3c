//! Identifiers of users, devices and keys, and the names of algorithms.
use vstd::prelude::*;
use vstd::string::*;
use vstd::utf8::*;

verus! {

/// Whether `ruma::UserId::try_from` takes a text for a user ID.
pub uninterp spec fn valid_user_id(text: Seq<char>) -> bool;

/// `ruma::UserId::try_from` on a string: the text decides whether it is a user
/// ID.
#[verifier::external_body]
fn is_user_id(text: &str) -> (r: bool)
    ensures
        r == valid_user_id(text@),
{
    ruma::UserId::try_from(text).is_ok()
}

/// `ruma::DeviceKeyId::from_parts`: the algorithm, a colon and the device ID.
/// It panics where the name of the algorithm is empty or has more than 255
/// bytes.
#[verifier::external_body]
fn key_id_from_parts(algorithm: &str, device_id: &str) -> (r: String)
    requires
        0 < encode_utf8(algorithm@).len() <= 255,
    ensures
        r@ == algorithm@ + seq![':'] + device_id@,
{
    ruma::DeviceKeyId::from_parts(algorithm.into(), device_id.into()).to_string()
}

/// The ID of a user.
#[derive(Debug)]
pub struct UserId {
    text: String,
}

impl View for UserId {
    type V = Seq<char>;

    closed spec fn view(&self) -> Seq<char> {
        self.text@
    }
}

impl UserId {
    #[verifier::type_invariant]
    closed spec fn valid(self) -> bool {
        valid_user_id(self.text@)
    }

    /// Reads a user ID, if the text is one.
    pub fn parse(text: &str) -> (r: Option<UserId>)
        ensures
            r is Some <==> valid_user_id(text@),
            r matches Some(id) ==> id@ == text@,
    {
        if is_user_id(text) {
            Some(UserId { text: text.to_owned() })
        } else {
            None
        }
    }

    /// A user ID from a text that is known to be one.
    pub(crate) fn from_valid(text: String) -> (r: UserId)
        requires
            valid_user_id(text@),
        ensures
            r@ == text@,
    {
        UserId { text }
    }

    /// The text of the user ID.
    pub fn as_str(&self) -> (r: &str)
        ensures
            r@ == self@,
            valid_user_id(r@),
    {
        proof {
            use_type_invariant(self);
        }
        self.text.as_str()
    }

    /// Whether two user IDs are the same.
    pub fn same_as(&self, other: &UserId) -> (r: bool)
        ensures
            r == (self@ == other@),
    {
        self.text == other.text
    }
}

impl Clone for UserId {
    fn clone(&self) -> (r: Self)
        ensures
            r == *self,
    {
        proof {
            use_type_invariant(self);
        }
        UserId { text: self.text.clone() }
    }
}

/// The algorithms of device keys.
#[derive(Clone, Copy, Debug, PartialEq, Eq, Structural)]
pub enum DeviceKeyAlgorithm {
    Ed25519,
    Curve25519,
    SignedCurve25519,
}

impl DeviceKeyAlgorithm {
    /// The name of the algorithm.
    pub open spec fn name(self) -> Seq<char> {
        match self {
            DeviceKeyAlgorithm::Ed25519 => "ed25519"@,
            DeviceKeyAlgorithm::Curve25519 => "curve25519"@,
            DeviceKeyAlgorithm::SignedCurve25519 => "signed_curve25519"@,
        }
    }

    /// The name of the algorithm.
    pub fn as_str(&self) -> (r: &'static str)
        ensures
            r@ == self.name(),
            0 < encode_utf8(r@).len() <= 255,
    {
        proof {
            reveal_strlit("ed25519");
            reveal_strlit("curve25519");
            reveal_strlit("signed_curve25519");
            is_ascii_chars_encode_utf8(self.name());
        }
        match self {
            DeviceKeyAlgorithm::Ed25519 => "ed25519",
            DeviceKeyAlgorithm::Curve25519 => "curve25519",
            DeviceKeyAlgorithm::SignedCurve25519 => "signed_curve25519",
        }
    }
}

/// The ID of a key: the name of its algorithm and the name of the key, with a
/// colon between them.
pub open spec fn key_id(algorithm: DeviceKeyAlgorithm, name: Seq<char>) -> Seq<char> {
    algorithm.name() + seq![':'] + name
}

/// The ID of a key.
pub fn device_key_id(algorithm: DeviceKeyAlgorithm, name: &str) -> (r: String)
    ensures
        r@ == key_id(algorithm, name@),
{
    key_id_from_parts(algorithm.as_str(), name)
}

/// Keys of different algorithms have different IDs.
pub proof fn lemma_key_ids_differ(a: DeviceKeyAlgorithm, b: DeviceKeyAlgorithm, x: Seq<char>, y: Seq<char>)
    requires
        a != b,
    ensures
        key_id(a, x) != key_id(b, y),
{
    reveal_strlit("ed25519");
    reveal_strlit("curve25519");
    reveal_strlit("signed_curve25519");
    assert(key_id(a, x)[0] == a.name()[0]);
    assert(key_id(b, y)[0] == b.name()[0]);
    assert("ed25519"@[0] == 'e');
    assert("curve25519"@[0] == 'c');
    assert("signed_curve25519"@[0] == 's');
}

/// Keys with different names have different IDs.
pub proof fn lemma_key_id_injective(a: DeviceKeyAlgorithm, x: Seq<char>, y: Seq<char>)
    requires
        key_id(a, x) == key_id(a, y),
    ensures
        x == y,
{
    let n = a.name().len() as int + 1;
    assert(x =~= key_id(a, x).skip(n));
    assert(y =~= key_id(a, y).skip(n));
}

/// The algorithms with which events are encrypted.
#[derive(Debug)]
pub enum EventEncryptionAlgorithm {
    OlmV1Curve25519AesSha2,
    MegolmV1AesSha2,
    Custom(String),
}

impl View for EventEncryptionAlgorithm {
    type V = Seq<char>;

    open spec fn view(&self) -> Seq<char> {
        match self {
            EventEncryptionAlgorithm::OlmV1Curve25519AesSha2 => "m.olm.v1.curve25519-aes-sha2"@,
            EventEncryptionAlgorithm::MegolmV1AesSha2 => "m.megolm.v1.aes-sha2"@,
            EventEncryptionAlgorithm::Custom(name) => name@,
        }
    }
}

impl Clone for EventEncryptionAlgorithm {
    fn clone(&self) -> (r: Self)
        ensures
            r == *self,
    {
        match self {
            EventEncryptionAlgorithm::OlmV1Curve25519AesSha2 => {
                EventEncryptionAlgorithm::OlmV1Curve25519AesSha2
            },
            EventEncryptionAlgorithm::MegolmV1AesSha2 => EventEncryptionAlgorithm::MegolmV1AesSha2,
            EventEncryptionAlgorithm::Custom(name) => EventEncryptionAlgorithm::Custom(
                name.clone(),
            ),
        }
    }
}

impl EventEncryptionAlgorithm {
    /// The name of the algorithm.
    pub fn as_str(&self) -> (r: &str)
        ensures
            r@ == self@,
    {
        match self {
            EventEncryptionAlgorithm::OlmV1Curve25519AesSha2 => "m.olm.v1.curve25519-aes-sha2",
            EventEncryptionAlgorithm::MegolmV1AesSha2 => "m.megolm.v1.aes-sha2",
            EventEncryptionAlgorithm::Custom(name) => name.as_str(),
        }
    }
}

} // verus!
