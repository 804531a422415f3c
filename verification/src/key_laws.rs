//! What holds of key IDs, of tables of keys, and of what is uploaded and signed.
use vstd::prelude::*;
use vstd::relations::injective_on;
use vstd::set_lib::lemma_map_size;
use vstd::utf8::*;

use crate::account::AccountView;
use crate::identifiers::{key_id, lemma_key_id_injective, DeviceKeyAlgorithm, EventEncryptionAlgorithm};
use crate::json::{field_table, json_string, json_text, pair_table};
use crate::keys::{
    signature_table, signed_by, text_table, DeviceKeys, OneTimeKey, OneTimeKeyView, ReadOnlyDeviceView, SignedKey,
};
use crate::signing::{device_algorithms, json_strings, supported_algorithms};
use crate::string_map::{in_key_order, key_less, StringMap};

verus! {

/// The names of the key algorithms.
pub proof fn lemma_algorithm_names()
    ensures
        DeviceKeyAlgorithm::Ed25519.name() == "ed25519"@,
        DeviceKeyAlgorithm::Curve25519.name() == "curve25519"@,
        DeviceKeyAlgorithm::SignedCurve25519.name() == "signed_curve25519"@,
{
}

/// The names of the encryption algorithms.
pub proof fn lemma_encryption_algorithm_names(name: String)
    ensures
        EventEncryptionAlgorithm::OlmV1Curve25519AesSha2@ == "m.olm.v1.curve25519-aes-sha2"@,
        EventEncryptionAlgorithm::MegolmV1AesSha2@ == "m.megolm.v1.aes-sha2"@,
        EventEncryptionAlgorithm::Custom(name)@ == name@,
{
}

/// A key ID is the name of the algorithm, a colon, and the whole name of the
/// key.
pub proof fn lemma_key_id_text(name: Seq<char>)
    ensures
        key_id(DeviceKeyAlgorithm::Ed25519, name) == "ed25519:"@ + name,
        key_id(DeviceKeyAlgorithm::Curve25519, name) == "curve25519:"@ + name,
        key_id(DeviceKeyAlgorithm::SignedCurve25519, name) == "signed_curve25519:"@ + name,
{
    reveal_strlit("ed25519");
    reveal_strlit("ed25519:");
    reveal_strlit("curve25519");
    reveal_strlit("curve25519:");
    reveal_strlit("signed_curve25519");
    reveal_strlit("signed_curve25519:");
    assert(key_id(DeviceKeyAlgorithm::Ed25519, name) =~= "ed25519:"@ + name);
    assert(key_id(DeviceKeyAlgorithm::Curve25519, name) =~= "curve25519:"@ + name);
    assert(key_id(DeviceKeyAlgorithm::SignedCurve25519, name) =~= "signed_curve25519:"@ + name);
}

/// Keys are ordered by the first byte in which their encodings differ, and one
/// that goes on where the other ends is the greater.
pub proof fn lemma_key_order(a: Seq<char>, b: Seq<char>, i: int)
    requires
        0 <= i < encode_utf8(b).len(),
        i <= encode_utf8(a).len(),
        forall|j: int| 0 <= j < i ==> #[trigger] encode_utf8(a)[j] == encode_utf8(b)[j],
    ensures
        i == encode_utf8(a).len() ==> key_less(a, b) && !key_less(b, a),
        i < encode_utf8(a).len() && encode_utf8(a)[i] < encode_utf8(b)[i] ==> key_less(a, b)
            && !key_less(b, a),
{
    let (x, y) = (encode_utf8(a), encode_utf8(b));
    if i == x.len() || x[i] < y[i] {
        assert(crate::string_map::smaller_at(x, y, i));
        if key_less(b, a) {
            crate::string_map::lemma_key_less_transitive(a, b, a);
            crate::string_map::lemma_key_less_irreflexive(a);
        }
    }
}

/// The keys of a map in their order: every key is there, nothing else is, none
/// is there twice, and each is smaller than those behind it.
pub proof fn lemma_keys_in_order<V>(keys: Seq<Seq<char>>, map: Map<Seq<char>, V>)
    requires
        in_key_order(keys, map),
    ensures
        keys.to_set() == map.dom(),
        keys.no_duplicates(),
        map.dom().finite(),
        map.dom().len() == keys.len(),
        forall|i: int, j: int|
            0 <= i < j < keys.len() ==> key_less(#[trigger] keys[i], #[trigger] keys[j]),
{
    assert forall|i: int, j: int|
        0 <= i < keys.len() && 0 <= j < keys.len() && i != j implies keys[i] != keys[j] by {
        crate::string_map::lemma_key_less_irreflexive(keys[i]);
        if i < j {
            assert(key_less(keys[i], keys[j]));
        } else {
            assert(key_less(keys[j], keys[i]));
        }
    }
    assert forall|k: Seq<char>| keys.to_set().contains(k) == map.dom().contains(k) by {
        assert(map.contains_key(k) == map.dom().contains(k));
        if keys.contains(k) {
            let i = choose|i: int| 0 <= i < keys.len() && keys[i] == k;
            assert(keys[i] == k);
            assert(map.contains_key(k));
        }
        if map.contains_key(k) {
            let i = choose|i: int| 0 <= i < keys.len() && #[trigger] keys[i] == k;
            assert(keys.contains(k));
        }
    }
    assert(keys.to_set() =~= map.dom());
    keys.unique_seq_to_set();
}

/// A table of texts has the entries of the table, each whole.
pub proof fn lemma_text_table(table: Map<Seq<char>, String>)
    ensures
        text_table(table).dom() == table.dom(),
        forall|k: Seq<char>| #[trigger]
            table.contains_key(k) ==> text_table(table)[k] == table[k]@,
{
    assert(text_table(table).dom() =~= table.dom());
}

/// A table of signatures has all users, and for each of them all keys.
pub proof fn lemma_signature_table(signatures: Map<Seq<char>, StringMap<String>>)
    ensures
        signature_table(signatures).dom() == signatures.dom(),
        forall|user: Seq<char>, key: Seq<char>|
            signatures.contains_key(user) ==> (#[trigger] signature_table(
                signatures,
            )[user].contains_key(key) <==> signatures[user]@.contains_key(key)),
        forall|user: Seq<char>, key: Seq<char>|
            signatures.contains_key(user) && signatures[user]@.contains_key(key)
                ==> #[trigger] signature_table(signatures)[user][key] == signatures[user]@[key]@,
{
    assert(signature_table(signatures).dom() =~= signatures.dom());
}

/// What a device signs carries one signature, under its user and its ed25519
/// key.
pub proof fn lemma_signed_by(user_id: Seq<char>, device_id: Seq<char>, signature: Seq<char>)
    ensures
        ({
            let signatures = signed_by(user_id, device_id, signature);
            &&& signatures.dom() == set![user_id]
            &&& signatures[user_id].dom() == set!["ed25519:"@ + device_id]
            &&& signatures[user_id]["ed25519:"@ + device_id] == signature
        }),
{
    lemma_key_id_text(device_id);
    let signatures = signed_by(user_id, device_id, signature);
    assert(signatures.dom() =~= set![user_id]);
    assert(signatures[user_id].dom() =~= set!["ed25519:"@ + device_id]);
}

/// A device has the key that stands under the algorithm and its own ID, and no
/// other.
pub proof fn lemma_key_of_a_device(device: ReadOnlyDeviceView)
    ensures
        ({
            let id = "curve25519:"@ + device.device_id;
            device.get_key(DeviceKeyAlgorithm::Curve25519) == if device.keys.contains_key(id) {
                Some(device.keys[id])
            } else {
                None
            }
        }),
        ({
            let id = "ed25519:"@ + device.device_id;
            device.get_key(DeviceKeyAlgorithm::Ed25519) == if device.keys.contains_key(id) {
                Some(device.keys[id])
            } else {
                None
            }
        }),
        ({
            let id = "signed_curve25519:"@ + device.device_id;
            device.get_key(DeviceKeyAlgorithm::SignedCurve25519) == if device.keys.contains_key(
                id,
            ) {
                Some(device.keys[id])
            } else {
                None
            }
        }),
{
    lemma_key_id_text(device.device_id);
}

/// The models of uploaded keys have all of their fields.
pub proof fn lemma_uploaded_key_models(device: DeviceKeys, signed: SignedKey, key: String)
    ensures
        device@.user_id == device.user_id@,
        device@.device_id == device.device_id@,
        device@.algorithms.len() == device.algorithms@.len(),
        forall|i: int|
            0 <= i < device.algorithms@.len() ==> #[trigger] device@.algorithms[i]
                == device.algorithms@[i]@,
        device@.keys.dom() == device.keys@.dom(),
        forall|k: Seq<char>| #[trigger]
            device.keys@.contains_key(k) ==> device@.keys[k] == device.keys@[k]@,
        device@.signatures == signature_table(device.signatures@),
        signed@.key == signed.key@,
        signed@.signatures == signature_table(signed.signatures@),
        OneTimeKey::SignedKey(signed)@ == OneTimeKeyView::SignedKey(signed@),
        OneTimeKey::Key(key)@ == OneTimeKeyView::Key(key@),
        OneTimeKey::Unknown@ == OneTimeKeyView::Unknown,
{
    lemma_text_table(device.keys@);
}

/// The device keys of an account name its owner and its two algorithms, hold its
/// two identity keys and nothing else, and are not signed.
pub proof fn lemma_unsigned_device_keys(account: AccountView)
    ensures
        ({
            let keys = account.unsigned_device_keys();
            let curve = "curve25519:"@ + account.device_id;
            let ed = "ed25519:"@ + account.device_id;
            &&& keys.user_id == account.user_id
            &&& keys.device_id == account.device_id
            &&& keys.algorithms == seq!["m.olm.v1.curve25519-aes-sha2"@, "m.megolm.v1.aes-sha2"@]
            &&& keys.keys.dom() == set![curve, ed]
            &&& keys.keys[curve] == account.identity_keys.curve25519
            &&& keys.keys[ed] == account.identity_keys.ed25519
            &&& keys.signatures.dom() == Set::<Seq<char>>::empty()
        }),
        device_algorithms() == seq!["m.olm.v1.curve25519-aes-sha2"@, "m.megolm.v1.aes-sha2"@],
        supported_algorithms().len() == 2,
        supported_algorithms()[0] == EventEncryptionAlgorithm::OlmV1Curve25519AesSha2,
        supported_algorithms()[1] == EventEncryptionAlgorithm::MegolmV1AesSha2,
{
    let keys = account.unsigned_device_keys();
    let curve = "curve25519:"@ + account.device_id;
    let ed = "ed25519:"@ + account.device_id;
    lemma_key_id_text(account.device_id);
    crate::identifiers::lemma_key_ids_differ(
        DeviceKeyAlgorithm::Curve25519,
        DeviceKeyAlgorithm::Ed25519,
        account.device_id,
        account.device_id,
    );
    assert(keys.keys.dom() =~= set![curve, ed]);
    assert(keys.signatures.dom() =~= Set::<Seq<char>>::empty());
}

/// The signed device keys are the unsigned ones with the one signature of the
/// account.
pub proof fn lemma_signed_device_keys(account: AccountView, signature: Seq<char>)
    ensures
        ({
            let signed = account.device_keys(signature);
            let keys = account.unsigned_device_keys();
            &&& signed.user_id == keys.user_id
            &&& signed.device_id == keys.device_id
            &&& signed.algorithms == keys.algorithms
            &&& signed.keys == keys.keys
            &&& signed.signatures.dom() == set![account.user_id]
            &&& signed.signatures[account.user_id].dom() == set!["ed25519:"@ + account.device_id]
            &&& signed.signatures[account.user_id]["ed25519:"@ + account.device_id] == signature
        }),
{
    lemma_signed_by(account.user_id, account.device_id, signature);
}

/// Every one-time key is uploaded, under its ID, whole, with the signature at
/// its place and that one alone; nothing else is uploaded; and there are as many
/// entries as there are one-time keys.
pub proof fn lemma_every_one_time_key_is_uploaded(
    account: AccountView,
    one_time_keys: StringMap<String>,
    signatures: Seq<String>,
    table: Map<Seq<char>, OneTimeKey>,
)
    requires
        in_key_order(one_time_keys.keys(), one_time_keys@),
        account.signed_one_time_keys(one_time_keys, signatures, table),
    ensures
        forall|id: Seq<char>| #[trigger]
            one_time_keys@.contains_key(id) ==> table.contains_key("signed_curve25519:"@ + id) && (
            table["signed_curve25519:"@ + id] matches OneTimeKey::SignedKey(signed) && signed.key@
                == one_time_keys@[id]@),
        forall|entry: Seq<char>| #[trigger]
            table.contains_key(entry) ==> exists|id: Seq<char>| #[trigger]
                one_time_keys@.contains_key(id) && entry == "signed_curve25519:"@ + id,
        table.dom().finite(),
        table.dom().len() == one_time_keys@.dom().len(),
        forall|i: int|
            #![trigger one_time_keys.keys()[i]]
            0 <= i < one_time_keys.keys().len() ==> ({
                let entry = "signed_curve25519:"@ + one_time_keys.keys()[i];
                &&& table[entry]@ matches OneTimeKeyView::SignedKey(signed)
                &&& signed.signatures.dom() == set![account.user_id]
                &&& signed.signatures[account.user_id].dom() == set![
                    "ed25519:"@ + account.device_id,
                ]
                &&& signed.signatures[account.user_id]["ed25519:"@ + account.device_id]
                    == signatures[i]@
            }),
{
    let algorithm = DeviceKeyAlgorithm::SignedCurve25519;
    let ids = one_time_keys.keys();
    lemma_keys_in_order(ids, one_time_keys@);
    assert forall|id: Seq<char>| #[trigger] one_time_keys@.contains_key(id) implies (
    table.contains_key("signed_curve25519:"@ + id) && (
    table["signed_curve25519:"@ + id] matches OneTimeKey::SignedKey(signed) && signed.key@
        == one_time_keys@[id]@)) by {
        lemma_key_id_text(id);
        let i = choose|i: int| 0 <= i < ids.len() && #[trigger] ids[i] == id;
        assert(ids[i] == id);
        assert(table.contains_key(key_id(algorithm, id)));
    }
    assert forall|entry: Seq<char>| #[trigger] table.contains_key(entry) implies exists|
        id: Seq<char>,
    | #[trigger] one_time_keys@.contains_key(id) && entry == "signed_curve25519:"@ + id by {
        let i = choose|i: int|
            #![trigger ids[i]]
            0 <= i < ids.len() && entry == key_id(algorithm, ids[i]);
        lemma_key_id_text(ids[i]);
        assert(one_time_keys@.contains_key(ids[i]));
    }
    let f = |id: Seq<char>| key_id(algorithm, id);
    assert forall|a: Seq<char>, b: Seq<char>|
        one_time_keys@.dom().contains(a) && one_time_keys@.dom().contains(b) && #[trigger] f(a)
            == #[trigger] f(b) implies a == b by {
        lemma_key_id_injective(algorithm, a, b);
    }
    assert(injective_on(f, one_time_keys@.dom()));
    assert forall|entry: Seq<char>|
        one_time_keys@.dom().map(f).contains(entry) == table.dom().contains(entry) by {
        if table.contains_key(entry) {
            let i = choose|i: int|
                #![trigger ids[i]]
                0 <= i < ids.len() && entry == key_id(algorithm, ids[i]);
            assert(one_time_keys@.contains_key(ids[i]));
            assert(one_time_keys@.dom().contains(ids[i]) && entry == f(ids[i]));
        }
        if one_time_keys@.dom().map(f).contains(entry) {
            let id = choose|id: Seq<char>| one_time_keys@.dom().contains(id) && entry == f(id);
            assert(one_time_keys@.contains_key(id));
            let i = choose|i: int| 0 <= i < ids.len() && #[trigger] ids[i] == id;
            assert(ids[i] == id);
            assert(table.contains_key(entry));
        }
    }
    assert(one_time_keys@.dom().map(f) =~= table.dom());
    lemma_map_size(one_time_keys@.dom(), table.dom(), f);
    assert forall|i: int|
        #![trigger one_time_keys.keys()[i]]
        0 <= i < one_time_keys.keys().len() implies ({
        let entry = "signed_curve25519:"@ + one_time_keys.keys()[i];
        &&& table[entry]@ matches OneTimeKeyView::SignedKey(signed)
        &&& signed.signatures.dom() == set![account.user_id]
        &&& signed.signatures[account.user_id].dom() == set!["ed25519:"@ + account.device_id]
        &&& signed.signatures[account.user_id]["ed25519:"@ + account.device_id] == signatures[i]@
    }) by {
        lemma_key_id_text(ids[i]);
        lemma_signed_by(account.user_id, account.device_id, signatures[i]@);
    }
}

/// A signed one-time key holds the whole key and the one signature of the
/// account.
pub proof fn lemma_signed_one_time_key(
    account: AccountView,
    key: Seq<char>,
    signature: Seq<char>,
)
    ensures
        ({
            &&& account.signed_one_time_key(key, signature) matches OneTimeKeyView::SignedKey(signed)
            &&& signed.key == key
            &&& signed.signatures.dom() == set![account.user_id]
            &&& signed.signatures[account.user_id].dom() == set!["ed25519:"@ + account.device_id]
            &&& signed.signatures[account.user_id]["ed25519:"@ + account.device_id] == signature
        }),
{
    lemma_signed_by(account.user_id, account.device_id, signature);
}

/// The JSON strings of a table have its names, each with the JSON string of the
/// whole text.
pub proof fn lemma_json_strings(table: Map<Seq<char>, Seq<char>>)
    ensures
        json_strings(table).dom() == table.dom(),
        forall|k: Seq<char>| #[trigger]
            table.contains_key(k) ==> json_strings(table)[k] == json_string(table[k]),
{
    assert(json_strings(table).dom() =~= table.dom());
}

/// A table of pairs has the first parts of all pairs as its keys, and under each
/// the second part of the last pair with it.
pub proof fn lemma_pair_table(pairs: Seq<(String, String)>)
    ensures
        forall|k: Seq<char>| #[trigger]
            pair_table(pairs).contains_key(k) <==> exists|i: int|
                0 <= i < pairs.len() && (#[trigger] pairs[i]).0@ == k,
        forall|i: int|
            0 <= i < pairs.len() && (forall|j: int|
                i < j < pairs.len() ==> (#[trigger] pairs[j]).0@ != pairs[i].0@)
                ==> pair_table(pairs)[(#[trigger] pairs[i]).0@] == pairs[i].1@,
    decreases pairs.len(),
{
    if pairs.len() > 0 {
        let rest = pairs.drop_last();
        let n = pairs.len() - 1;
        lemma_pair_table(rest);
        assert forall|k: Seq<char>| #[trigger] pair_table(pairs).contains_key(k) <==> exists|i: int|
            0 <= i < pairs.len() && (#[trigger] pairs[i]).0@ == k by {
            if pair_table(pairs).contains_key(k) {
                if k == pairs[n].0@ {
                    assert(pairs[n].0@ == k);
                } else {
                    assert(pair_table(rest).contains_key(k));
                    let i = choose|i: int| 0 <= i < rest.len() && (#[trigger] rest[i]).0@ == k;
                    assert(pairs[i].0@ == k);
                }
            }
            if exists|i: int| 0 <= i < pairs.len() && (#[trigger] pairs[i]).0@ == k {
                let i = choose|i: int| 0 <= i < pairs.len() && (#[trigger] pairs[i]).0@ == k;
                if i < n {
                    assert(rest[i].0@ == k);
                    assert(pair_table(rest).contains_key(k));
                }
            }
        }
        assert forall|i: int|
            0 <= i < pairs.len() && (forall|j: int|
                i < j < pairs.len() ==> (#[trigger] pairs[j]).0@ != pairs[i].0@)
            implies pair_table(pairs)[(#[trigger] pairs[i]).0@] == pairs[i].1@ by {
            if i < n {
                assert(pairs[n].0@ != pairs[i].0@);
                assert(rest[i] == pairs[i]);
                assert forall|j: int| i < j < rest.len() implies (#[trigger] rest[j]).0@
                    != rest[i].0@ by {
                    assert(pairs[j].0@ != pairs[i].0@);
                }
            }
        }
    }
}

/// A table of fields has the names of all fields as its keys, and under each the
/// text of the last value with it.
pub proof fn lemma_field_table(fields: Seq<(String, serde_json::Value)>)
    ensures
        forall|k: Seq<char>| #[trigger]
            field_table(fields).contains_key(k) <==> exists|i: int|
                0 <= i < fields.len() && (#[trigger] fields[i]).0@ == k,
        forall|i: int|
            0 <= i < fields.len() && (forall|j: int|
                i < j < fields.len() ==> (#[trigger] fields[j]).0@ != fields[i].0@)
                ==> field_table(fields)[(#[trigger] fields[i]).0@] == json_text(fields[i].1),
    decreases fields.len(),
{
    if fields.len() > 0 {
        let rest = fields.drop_last();
        let n = fields.len() - 1;
        lemma_field_table(rest);
        assert forall|k: Seq<char>| #[trigger] field_table(fields).contains_key(k) <==> exists|
            i: int,
        | 0 <= i < fields.len() && (#[trigger] fields[i]).0@ == k by {
            if field_table(fields).contains_key(k) {
                if k == fields[n].0@ {
                    assert(fields[n].0@ == k);
                } else {
                    assert(field_table(rest).contains_key(k));
                    let i = choose|i: int| 0 <= i < rest.len() && (#[trigger] rest[i]).0@ == k;
                    assert(fields[i].0@ == k);
                }
            }
            if exists|i: int| 0 <= i < fields.len() && (#[trigger] fields[i]).0@ == k {
                let i = choose|i: int| 0 <= i < fields.len() && (#[trigger] fields[i]).0@ == k;
                if i < n {
                    assert(rest[i].0@ == k);
                    assert(field_table(rest).contains_key(k));
                }
            }
        }
        assert forall|i: int|
            0 <= i < fields.len() && (forall|j: int|
                i < j < fields.len() ==> (#[trigger] fields[j]).0@ != fields[i].0@)
            implies field_table(fields)[(#[trigger] fields[i]).0@] == json_text(fields[i].1) by {
            if i < n {
                assert(fields[n].0@ != fields[i].0@);
                assert(rest[i] == fields[i]);
                assert forall|j: int| i < j < rest.len() implies (#[trigger] rest[j]).0@
                    != rest[i].0@ by {
                    assert(fields[j].0@ != fields[i].0@);
                }
            }
        }
    }
}

} // verus!
