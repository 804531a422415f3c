//! What the account signs, and what it uploads with the signatures.
use vstd::prelude::*;
use vstd::string::*;

use crate::account::{AccountView, ReadOnlyAccount};
use crate::identifiers::{
    device_key_id, key_id, lemma_key_id_injective, DeviceKeyAlgorithm, EventEncryptionAlgorithm,
};
use crate::json::{
    array_value, canonicalize, comma_separated, escaped_text, field_table, has_canonical_form, json_array,
    json_member, json_members, json_object, json_string, json_text, lemma_json_object, object_value,
    string_value,
};
use crate::keys::{
    signature_of, signed_by, text_table, DeviceKeys, DeviceKeysView, OneTimeKey, OneTimeKeyView, SignedKey,
    SignedKeyView,
};
use crate::string_map::{in_key_order, key_less, lemma_first_char_decides, StringMap};

verus! {

/// The reason why a JSON value cannot be signed: it has no canonical form.
#[derive(Clone, Copy, Debug, PartialEq, Eq, Structural)]
pub struct NotCanonical;

/// The text that is signed for a JSON value: its canonical form.
pub fn signing_payload(json: serde_json::Value) -> (r: Result<String, NotCanonical>)
    ensures
        match r {
            Ok(text) => has_canonical_form(json_text(json)) && text@ == json_text(json),
            Err(_) => !has_canonical_form(json_text(json)),
        },
{
    match canonicalize(json) {
        Ok(text) => Ok(text),
        Err(_) => Err(NotCanonical),
    }
}

/// The JSON strings of texts.
pub open spec fn json_strings(table: Map<Seq<char>, Seq<char>>) -> Map<Seq<char>, Seq<char>> {
    table.map_values(|text: Seq<char>| json_string(text))
}

/// A JSON object with the texts of a table.
fn text_object(table: &StringMap<String>) -> (r: serde_json::Value)
    ensures
        json_text(r) == json_object(json_strings(text_table(table@))),
        has_canonical_form(json_text(r)),
{
    let n: usize = table.len();
    let mut fields: Vec<(String, serde_json::Value)> = Vec::new();
    let mut i: usize = 0;
    while i < n
        invariant
            n == table.keys().len(),
            i <= n,
            fields@.len() == i,
            forall|k: Seq<char>| #[trigger]
                field_table(fields@).contains_key(k) <==> exists|j: int|
                    0 <= j < i && #[trigger] table.keys()[j] == k,
            forall|j: int|
                0 <= j < i ==> field_table(fields@)[#[trigger] table.keys()[j]] == json_string(
                    table@[table.keys()[j]]@,
                ),
            forall|j: int|
                0 <= j < fields@.len() ==> has_canonical_form(json_text((#[trigger] fields@[j]).1)),
        decreases n - i,
    {
        let ghost before = fields@;
        let key: &String = table.key_at(i);
        let value: serde_json::Value = string_value(table.value_at(i).as_str());
        fields.push((key.clone(), value));
        assert(fields@.drop_last() =~= before);
        assert forall|k: Seq<char>| #[trigger]
            field_table(fields@).contains_key(k) implies exists|j: int|
            0 <= j < i + 1 && #[trigger] table.keys()[j] == k by {
            if k == key@ {
                assert(table.keys()[i as int] == k);
            } else {
                assert(field_table(before).contains_key(k));
            }
        }
        i = i + 1;
    }
    proof {
        let strings = json_strings(text_table(table@));
        assert forall|k: Seq<char>| strings.contains_key(k) == #[trigger] field_table(
            fields@,
        ).contains_key(k) by {
            assert(table@.contains_key(k) == strings.contains_key(k));
        }
        assert forall|k: Seq<char>| strings.contains_key(k) implies strings[k] == #[trigger] field_table(
            fields@,
        )[k] by {
            assert(field_table(fields@).contains_key(k));
        }
        assert(field_table(fields@) =~= strings);
    }
    object_value(fields)
}

/// The algorithms that a device supports.
pub open spec fn supported_algorithms() -> Seq<EventEncryptionAlgorithm> {
    seq![
        EventEncryptionAlgorithm::OlmV1Curve25519AesSha2,
        EventEncryptionAlgorithm::MegolmV1AesSha2,
    ]
}

/// The names of the algorithms that a device supports.
pub open spec fn device_algorithms() -> Seq<Seq<char>> {
    seq!["m.olm.v1.curve25519-aes-sha2"@, "m.megolm.v1.aes-sha2"@]
}

/// The JSON of device keys that is signed: all of them but the signatures.
pub open spec fn device_keys_json(keys: DeviceKeysView) -> Seq<char> {
    json_object(
        map![
            "user_id"@ => json_string(keys.user_id),
            "device_id"@ => json_string(keys.device_id),
            "algorithms"@ => json_array(Seq::new(keys.algorithms.len(), |i: int| json_string(keys.algorithms[i]))),
            "keys"@ => json_object(json_strings(keys.keys)),
        ],
    )
}

/// The JSON of a one-time key that is signed.
pub open spec fn one_time_key_json(key: Seq<char>) -> Seq<char> {
    json_object(map!["key"@ => json_string(key)])
}

impl AccountView {
    /// The device keys of the account without a signature.
    pub open spec fn unsigned_device_keys(self) -> DeviceKeysView {
        DeviceKeysView {
            user_id: self.user_id,
            device_id: self.device_id,
            algorithms: device_algorithms(),
            keys: map![
                key_id(DeviceKeyAlgorithm::Curve25519, self.device_id) => self.identity_keys.curve25519,
                key_id(DeviceKeyAlgorithm::Ed25519, self.device_id) => self.identity_keys.ed25519,
            ],
            signatures: Map::empty(),
        }
    }

    /// The device keys of the account with its signature.
    pub open spec fn device_keys(self, signature: Seq<char>) -> DeviceKeysView {
        DeviceKeysView {
            signatures: signed_by(self.user_id, self.device_id, signature),
            ..self.unsigned_device_keys()
        }
    }

    /// A one-time key of the account with its signature.
    pub open spec fn signed_one_time_key(
        self,
        key: Seq<char>,
        signature: Seq<char>,
    ) -> OneTimeKeyView {
        OneTimeKeyView::SignedKey(
            SignedKeyView { key, signatures: signed_by(self.user_id, self.device_id, signature) },
        )
    }

    /// Whether a table holds the one-time keys of the account with their
    /// signatures, by the IDs of the signed keys, and nothing else. The
    /// signatures are in the order of the keys.
    pub open spec fn signed_one_time_keys(
        self,
        one_time_keys: StringMap<String>,
        signatures: Seq<String>,
        table: Map<Seq<char>, OneTimeKey>,
    ) -> bool {
        let ids = one_time_keys.keys();
        let algorithm = DeviceKeyAlgorithm::SignedCurve25519;
        &&& forall|id: Seq<char>| #[trigger]
            table.contains_key(id) <==> exists|i: int|
                #![trigger ids[i]]
                0 <= i < ids.len() && id == key_id(algorithm, ids[i])
        &&& forall|i: int|
            #![trigger ids[i]]
            0 <= i < ids.len() ==> table[key_id(algorithm, ids[i])]@ == self.signed_one_time_key(
                one_time_keys@[ids[i]]@,
                signatures[i]@,
            )
    }
}

/// The JSON array of the names of algorithms.
fn algorithms_value(algorithms: &Vec<EventEncryptionAlgorithm>) -> (r: serde_json::Value)
    ensures
        json_text(r) == json_array(
            Seq::new(algorithms@.len(), |i: int| json_string(algorithms@[i]@)),
        ),
        has_canonical_form(json_text(r)),
{
    let mut names: Vec<serde_json::Value> = Vec::new();
    let mut i: usize = 0;
    while i < algorithms.len()
        invariant
            i <= algorithms@.len(),
            names@.len() == i,
            forall|j: int|
                0 <= j < i ==> json_text(#[trigger] names@[j]) == json_string(algorithms@[j]@),
            forall|j: int| 0 <= j < i ==> has_canonical_form(json_text(#[trigger] names@[j])),
        decreases algorithms@.len() - i,
    {
        names.push(string_value(algorithms[i].as_str()));
        i = i + 1;
    }
    assert(Seq::new(names@.len(), |j: int| json_text(names@[j]))
        =~= Seq::new(algorithms@.len(), |j: int| json_string(algorithms@[j]@)));
    array_value(names)
}

/// The canonical form of a value that is known to have one.
fn canonical_text(json: serde_json::Value) -> (r: String)
    requires
        has_canonical_form(json_text(json)),
    ensures
        r@ == json_text(json),
{
    match signing_payload(json) {
        Ok(text) => text,
        Err(_) => {
            assert(false);
            String::new()
        },
    }
}

impl DeviceKeys {
    /// The text that is signed for the device keys.
    pub fn signing_payload(&self) -> (r: String)
        ensures
            r@ == device_keys_json(self@),
    {
        let algorithms: serde_json::Value = algorithms_value(&self.algorithms);
        let mut fields: Vec<(String, serde_json::Value)> = Vec::new();
        fields.push(("user_id".to_owned(), string_value(self.user_id.as_str())));
        let ghost fields1 = fields@;
        fields.push(("device_id".to_owned(), string_value(self.device_id.as_str())));
        let ghost fields2 = fields@;
        fields.push(("algorithms".to_owned(), algorithms));
        let ghost fields3 = fields@;
        fields.push(("keys".to_owned(), text_object(&self.keys)));
        proof {
            reveal_with_fuel(field_table, 5);
            assert(fields@.drop_last() =~= fields3);
            assert(fields3.drop_last() =~= fields2);
            assert(fields2.drop_last() =~= fields1);
            let algorithm_names = Seq::new(
                self@.algorithms.len(),
                |i: int| json_string(self@.algorithms[i]),
            );
            assert(algorithm_names =~= Seq::new(
                self.algorithms@.len(),
                |i: int| json_string(self.algorithms@[i]@),
            ));
            assert(field_table(fields@)
                =~= map![
                    "user_id"@ => json_string(self@.user_id),
                    "device_id"@ => json_string(self@.device_id),
                    "algorithms"@ => json_array(algorithm_names),
                    "keys"@ => json_object(json_strings(self@.keys)),
                ]);
        }
        canonical_text(object_value(fields))
    }
}

/// The text that is signed for a one-time key.
pub fn one_time_key_payload(key: &str) -> (r: String)
    ensures
        r@ == one_time_key_json(key@),
{
    let mut fields: Vec<(String, serde_json::Value)> = Vec::new();
    fields.push(("key".to_owned(), string_value(key)));
    proof {
        reveal_with_fuel(field_table, 2);
        assert(field_table(fields@) =~= map!["key"@ => json_string(key@)]);
    }
    canonical_text(object_value(fields))
}

/// The texts that are signed for one-time keys, in the order of their IDs.
pub fn one_time_key_payloads(one_time_keys: &StringMap<String>) -> (r: Vec<String>)
    ensures
        r@.len() == one_time_keys.keys().len(),
        forall|i: int|
            0 <= i < r@.len() ==> (#[trigger] r@[i])@ == one_time_key_json(
                one_time_keys@[one_time_keys.keys()[i]]@,
            ),
{
    let n: usize = one_time_keys.len();
    let mut payloads: Vec<String> = Vec::new();
    let mut i: usize = 0;
    while i < n
        invariant
            n == one_time_keys.keys().len(),
            i <= n,
            payloads@.len() == i,
            forall|j: int|
                0 <= j < i ==> (#[trigger] payloads@[j])@ == one_time_key_json(
                    one_time_keys@[one_time_keys.keys()[j]]@,
                ),
        decreases n - i,
    {
        payloads.push(one_time_key_payload(one_time_keys.value_at(i).as_str()));
        i = i + 1;
    }
    payloads
}

impl ReadOnlyAccount {
    /// The device keys of the account without a signature.
    pub fn unsigned_device_keys(&self) -> (r: DeviceKeys)
        ensures
            r@ == self@.unsigned_device_keys(),
            r.algorithms@ == supported_algorithms(),
    {
        let mut keys: StringMap<String> = StringMap::new();
        keys.insert(
            device_key_id(DeviceKeyAlgorithm::Curve25519, self.device_id().as_str()),
            self.identity_keys().curve25519().clone(),
        );
        keys.insert(
            device_key_id(DeviceKeyAlgorithm::Ed25519, self.device_id().as_str()),
            self.identity_keys().ed25519().clone(),
        );
        let mut algorithms: Vec<EventEncryptionAlgorithm> = Vec::new();
        algorithms.push(EventEncryptionAlgorithm::OlmV1Curve25519AesSha2);
        algorithms.push(EventEncryptionAlgorithm::MegolmV1AesSha2);
        let r = DeviceKeys {
            user_id: self.user_id().clone(),
            device_id: self.device_id().clone(),
            algorithms,
            keys,
            signatures: StringMap::new(),
        };
        assert(r@ =~= self@.unsigned_device_keys());
        r
    }

    /// The text that the account signs for its device keys.
    pub fn device_keys_payload(&self) -> (r: String)
        ensures
            r@ == device_keys_json(self@.unsigned_device_keys()),
    {
        self.unsigned_device_keys().signing_payload()
    }

    /// The device keys of the account with its signature of
    /// `device_keys_payload`, so they can be uploaded.
    pub fn device_keys(&self, signature: String) -> (r: DeviceKeys)
        ensures
            r@ == self@.device_keys(signature@),
            r.algorithms@ == supported_algorithms(),
    {
        let mut device_keys = self.unsigned_device_keys();
        device_keys.signatures = signature_of(
            self.user_id(),
            self.device_id().as_str(),
            signature,
        );
        assert(device_keys@ =~= self@.device_keys(signature@));
        device_keys
    }

    /// Prepare one-time keys to be uploaded.
    ///
    /// # Arguments
    ///
    /// * `one_time_keys` - The curve25519 one-time keys of the account by their
    /// IDs.
    ///
    /// * `signatures` - The signatures of the account for the texts of
    /// `one_time_key_payloads`.
    pub fn signed_one_time_keys_helper(
        &self,
        one_time_keys: &StringMap<String>,
        signatures: Vec<String>,
    ) -> (r: StringMap<OneTimeKey>)
        requires
            signatures@.len() == one_time_keys.keys().len(),
        ensures
            self@.signed_one_time_keys(*one_time_keys, signatures@, r@),
    {
        let n: usize = one_time_keys.len();
        let mut one_time_key_map: StringMap<OneTimeKey> = StringMap::new();
        let mut i: usize = 0;
        while i < n
            invariant
                n == one_time_keys.keys().len(),
                signatures@.len() == n,
                i <= n,
                forall|a: int, b: int|
                    0 <= a < b < n ==> #[trigger] one_time_keys.keys()[a]
                        != #[trigger] one_time_keys.keys()[b],
                forall|id: Seq<char>| #[trigger]
                    one_time_key_map@.contains_key(id) <==> exists|j: int|
                        #![trigger one_time_keys.keys()[j]]
                        0 <= j < i && id == key_id(
                            DeviceKeyAlgorithm::SignedCurve25519,
                            one_time_keys.keys()[j],
                        ),
                forall|j: int|
                    #![trigger one_time_keys.keys()[j]]
                    0 <= j < i ==> one_time_key_map@[key_id(
                        DeviceKeyAlgorithm::SignedCurve25519,
                        one_time_keys.keys()[j],
                    )]@ == self@.signed_one_time_key(
                        one_time_keys@[one_time_keys.keys()[j]]@,
                        signatures@[j]@,
                    ),
            decreases n - i,
        {
            let key_id_text: &String = one_time_keys.key_at(i);
            let key: &String = one_time_keys.value_at(i);
            let signed_key = SignedKey {
                key: key.clone(),
                signatures: signature_of(
                    self.user_id(),
                    self.device_id().as_str(),
                    signatures[i].clone(),
                ),
            };
            let ghost before = one_time_key_map@;
            one_time_key_map.insert(
                device_key_id(DeviceKeyAlgorithm::SignedCurve25519, key_id_text.as_str()),
                OneTimeKey::SignedKey(signed_key),
            );
            proof {
                let algorithm = DeviceKeyAlgorithm::SignedCurve25519;
                let new_id = key_id(algorithm, one_time_keys.keys()[i as int]);
                assert forall|j: int| 0 <= j < i implies key_id(
                    algorithm,
                    #[trigger] one_time_keys.keys()[j],
                ) != new_id by {
                    if key_id(algorithm, one_time_keys.keys()[j]) == new_id {
                        lemma_key_id_injective(
                            algorithm,
                            one_time_keys.keys()[j],
                            one_time_keys.keys()[i as int],
                        );
                    }
                }
                assert forall|id: Seq<char>| #[trigger]
                    one_time_key_map@.contains_key(id) implies exists|j: int|
                    #![trigger one_time_keys.keys()[j]]
                    0 <= j < i + 1 && id == key_id(algorithm, one_time_keys.keys()[j]) by {
                    if id == new_id {
                        assert(0 <= i < i + 1 && id == key_id(
                            algorithm,
                            one_time_keys.keys()[i as int],
                        ));
                    } else {
                        assert(before.contains_key(id));
                    }
                }
            }
            i = i + 1;
        }
        one_time_key_map
    }
}

/// The signature of an account covers the device keys that are uploaded with it:
/// all that is signed is uploaded, and nothing else but the signature.
pub proof fn lemma_signature_covers_device_keys(account: AccountView, signature: Seq<char>)
    ensures
        device_keys_json(account.device_keys(signature)) == device_keys_json(
            account.unsigned_device_keys(),
        ),
        (DeviceKeysView { signatures: Map::empty(), ..account.device_keys(signature) })
            == account.unsigned_device_keys(),
        account.device_keys(signature).signatures == signed_by(
            account.user_id,
            account.device_id,
            signature,
        ),
{
}

/// The signature of an account covers the one-time key that is uploaded with it,
/// and is the only one.
pub proof fn lemma_signature_covers_one_time_key(
    account: AccountView,
    key: Seq<char>,
    signature: Seq<char>,
)
    ensures
        match account.signed_one_time_key(key, signature) {
            OneTimeKeyView::SignedKey(signed) => {
                &&& one_time_key_json(signed.key) == one_time_key_json(key)
                &&& signed.key == key
                &&& signed.signatures == signed_by(account.user_id, account.device_id, signature)
            },
            _ => false,
        },
{
}

/// Where every text is signed in the same way, each key that is uploaded carries
/// the signature of its own text, made by the device of the account.
pub proof fn lemma_one_time_keys_are_signed(
    account: AccountView,
    one_time_keys: StringMap<String>,
    signatures: Seq<String>,
    table: Map<Seq<char>, OneTimeKey>,
    sign: spec_fn(Seq<char>) -> Seq<char>,
)
    requires
        account.signed_one_time_keys(one_time_keys, signatures, table),
        forall|i: int|
            #![trigger one_time_keys.keys()[i]]
            0 <= i < one_time_keys.keys().len() ==> signatures[i]@ == sign(
                one_time_key_json(one_time_keys@[one_time_keys.keys()[i]]@),
            ),
    ensures
        forall|id: Seq<char>| #[trigger]
            table.contains_key(id) ==> match table[id]@ {
                OneTimeKeyView::SignedKey(signed) => signed.signatures == signed_by(
                    account.user_id,
                    account.device_id,
                    sign(one_time_key_json(signed.key)),
                ),
                _ => false,
            },
{
}

/// The same keys with the same signatures make the same table.
pub proof fn lemma_one_time_keys_are_determined(
    account: AccountView,
    one_time_keys: StringMap<String>,
    signatures: Seq<String>,
    one: Map<Seq<char>, OneTimeKey>,
    other: Map<Seq<char>, OneTimeKey>,
)
    requires
        account.signed_one_time_keys(one_time_keys, signatures, one),
        account.signed_one_time_keys(one_time_keys, signatures, other),
    ensures
        forall|id: Seq<char>| #[trigger] one.contains_key(id) <==> #[trigger] other.contains_key(id),
        forall|id: Seq<char>| #[trigger] one.contains_key(id) ==> one[id]@ == other[id]@,
{
    assert forall|id: Seq<char>| #[trigger] one.contains_key(id) implies other.contains_key(id)
        && one[id]@ == other[id]@ by {
        let i = choose|i: int|
            #![trigger one_time_keys.keys()[i]]
            0 <= i < one_time_keys.keys().len() && id == key_id(
                DeviceKeyAlgorithm::SignedCurve25519,
                one_time_keys.keys()[i],
            );
        assert(other.contains_key(id));
    }
    assert forall|id: Seq<char>| #[trigger] other.contains_key(id) implies one.contains_key(id) by {
        let i = choose|i: int|
            #![trigger one_time_keys.keys()[i]]
            0 <= i < one_time_keys.keys().len() && id == key_id(
                DeviceKeyAlgorithm::SignedCurve25519,
                one_time_keys.keys()[i],
            );
        assert(one.contains_key(id));
    }
}

/// The text that is signed for a one-time key.
pub proof fn lemma_one_time_key_json(key: Seq<char>)
    ensures
        one_time_key_json(key) == "{\"key\":"@ + json_string(key) + "}"@,
{
    reveal_strlit("key");
    reveal_strlit("{\"key\":");
    reveal_strlit("}");
    let fields = map!["key"@ => json_string(key)];
    let names = seq!["key"@];
    assert(names[0] == "key"@);
    assert(in_key_order(names, fields));
    lemma_json_object(names, fields);
    let members = json_members(names, fields);
    assert(members.len() == 1 && members[0] == json_member("key"@, json_string(key)));
    assert(comma_separated(members) == members[0]);
    reveal_with_fuel(escaped_text, 4);
    assert(escaped_text("key"@) =~= "key"@);
    assert(one_time_key_json(key) =~= "{\"key\":"@ + json_string(key) + "}"@);
}

/// The text that is signed for device keys.
pub proof fn lemma_device_keys_json(keys: DeviceKeysView)
    ensures
        device_keys_json(keys) == seq!['{'] + json_member(
            "algorithms"@,
            json_array(
                Seq::new(keys.algorithms.len(), |i: int| json_string(keys.algorithms[i])),
            ),
        ) + seq![','] + json_member("device_id"@, json_string(keys.device_id)) + seq![',']
            + json_member("keys"@, json_object(json_strings(keys.keys))) + seq![',']
            + json_member("user_id"@, json_string(keys.user_id)) + seq!['}'],
{
    let algorithms = json_array(
        Seq::new(keys.algorithms.len(), |i: int| json_string(keys.algorithms[i])),
    );
    let key_object = json_object(json_strings(keys.keys));
    let user_id = json_string(keys.user_id);
    let device_id = json_string(keys.device_id);
    let fields = map![
        "user_id"@ => user_id,
        "device_id"@ => device_id,
        "algorithms"@ => algorithms,
        "keys"@ => key_object,
    ];
    lemma_device_field_order(user_id, device_id, algorithms, key_object);
    lemma_json_object(device_field_names(), fields);
    lemma_four_separated(json_members(device_field_names(), fields));
}

/// The names of the signed fields of device keys, in their order.
spec fn device_field_names() -> Seq<Seq<char>> {
    seq!["algorithms"@, "device_id"@, "keys"@, "user_id"@]
}

/// The fields of device keys in their order.
proof fn lemma_device_field_order(
    user_id: Seq<char>,
    device_id: Seq<char>,
    algorithms: Seq<char>,
    keys: Seq<char>,
)
    ensures
        ({
            let fields = map![
                "user_id"@ => user_id,
                "device_id"@ => device_id,
                "algorithms"@ => algorithms,
                "keys"@ => keys,
            ];
            let members = json_members(device_field_names(), fields);
            &&& in_key_order(device_field_names(), fields)
            &&& members.len() == 4
            &&& members[0] == json_member("algorithms"@, algorithms)
            &&& members[1] == json_member("device_id"@, device_id)
            &&& members[2] == json_member("keys"@, keys)
            &&& members[3] == json_member("user_id"@, user_id)
        }),
{
    let names = device_field_names();
    reveal_strlit("algorithms");
    reveal_strlit("device_id");
    reveal_strlit("keys");
    reveal_strlit("user_id");
    assert("algorithms"@[0] == 'a' && "device_id"@[0] == 'd');
    assert("keys"@[0] == 'k' && "user_id"@[0] == 'u');
    assert forall|i: int, j: int| 0 <= i < j < names.len() implies key_less(
        #[trigger] names[i],
        #[trigger] names[j],
    ) by {
        lemma_first_char_decides(names[i], names[j]);
    }
    assert(names[0] == "algorithms"@ && names[1] == "device_id"@);
    assert(names[2] == "keys"@ && names[3] == "user_id"@);
}

/// Four texts with commas between them.
proof fn lemma_four_separated(texts: Seq<Seq<char>>)
    requires
        texts.len() == 4,
    ensures
        seq!['{'] + comma_separated(texts) + seq!['}'] == seq!['{'] + texts[0] + seq![',']
            + texts[1] + seq![','] + texts[2] + seq![','] + texts[3] + seq!['}'],
{
    let three = texts.drop_last();
    let two = three.drop_last();
    let one = two.drop_last();
    assert(comma_separated(one) == texts[0]);
    assert(comma_separated(two) == texts[0] + seq![','] + texts[1]);
    assert(comma_separated(three) == comma_separated(two) + seq![','] + texts[2]);
    assert(comma_separated(texts) == comma_separated(three) + seq![','] + texts[3]);
    assert(seq!['{'] + comma_separated(texts) + seq!['}'] =~= seq!['{'] + texts[0] + seq![',']
        + texts[1] + seq![','] + texts[2] + seq![','] + texts[3] + seq!['}']);
}

/// The text of the keys among the device keys of an account.
pub proof fn lemma_account_keys_json(account: AccountView)
    ensures
        json_object(json_strings(account.unsigned_device_keys().keys)) == seq!['{'] + json_member(
            key_id(DeviceKeyAlgorithm::Curve25519, account.device_id),
            json_string(account.identity_keys.curve25519),
        ) + seq![','] + json_member(
            key_id(DeviceKeyAlgorithm::Ed25519, account.device_id),
            json_string(account.identity_keys.ed25519),
        ) + seq!['}'],
{
    let curve = key_id(DeviceKeyAlgorithm::Curve25519, account.device_id);
    let ed = key_id(DeviceKeyAlgorithm::Ed25519, account.device_id);
    let fields = json_strings(account.unsigned_device_keys().keys);
    let names = seq![curve, ed];
    reveal_strlit("curve25519");
    reveal_strlit("ed25519");
    assert(curve[0] == 'c' && ed[0] == 'e');
    lemma_first_char_decides(curve, ed);
    assert(names[0] == curve && names[1] == ed);
    assert(in_key_order(names, fields));
    lemma_json_object(names, fields);
    let members = json_members(names, fields);
    reveal_with_fuel(comma_separated, 2);
    assert(members.drop_last() =~= seq![members[0]]);
    assert(members[0] == json_member(curve, json_string(account.identity_keys.curve25519)));
    assert(members[1] == json_member(ed, json_string(account.identity_keys.ed25519)));
    assert(comma_separated(members) == members[0] + seq![','] + members[1]);
    assert(json_object(fields) =~= seq!['{'] + members[0] + seq![','] + members[1] + seq!['}']);
}

} // verus!
