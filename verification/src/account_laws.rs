//! What holds of the counts, the uploads and the pickles of an account.
use vstd::prelude::*;
use vstd::std_specs::cmp::PartialEqSpec;

use crate::account::{
    kept_count, signed_key_count, wanted_on_server, AccountView, PickledAccount, PickledAccountView, ReadOnlyAccount,
};
use crate::keys::IdentityKeysView;

verus! {

/// A fresh account belongs to its owner, has not been shared, and has no key on
/// the server.
pub proof fn lemma_fresh_account(user_id: Seq<char>, device_id: Seq<char>, keys: IdentityKeysView)
    ensures
        ({
            let account = AccountView::fresh(user_id, device_id, keys);
            &&& account.user_id == user_id
            &&& account.device_id == device_id
            &&& account.identity_keys.curve25519 == keys.curve25519
            &&& account.identity_keys.ed25519 == keys.ed25519
            &&& !account.shared
            &&& account.uploaded_signed_key_count == 0
        }),
{
}

/// A count that the server reports takes the place of the known one, whatever
/// that was, and nothing else changes. One that does not fit is kept as the
/// greatest that does.
pub proof fn lemma_reported_count_is_kept(account: AccountView, reported: u64)
    ensures
        ({
            let after = account.with_reported_count(reported as int);
            &&& reported <= 0x7fff_ffff_ffff_ffff ==> after.uploaded_signed_key_count == reported
            &&& reported > 0x7fff_ffff_ffff_ffff ==> after.uploaded_signed_key_count
                == 0x7fff_ffff_ffff_ffff
            &&& after.shared == account.shared
            &&& after.user_id == account.user_id
            &&& after.device_id == account.device_id
            &&& after.identity_keys == account.identity_keys
        }),
        reported <= 0x7fff_ffff_ffff_ffff ==> kept_count(reported as int) == reported,
{
}

/// Key counts with a count of signed curve25519 keys set the count of the
/// account to it, whatever it was before. Counts of other algorithms change
/// nothing.
pub proof fn lemma_key_counts_are_taken_in(account: AccountView, key_counts: Map<Seq<char>, u64>)
    ensures
        ({
            let after = account.with_key_counts(key_counts);
            let n = key_counts["signed_curve25519"@];
            &&& key_counts.contains_key("signed_curve25519"@) && n <= 0x7fff_ffff_ffff_ffff
                ==> after.uploaded_signed_key_count == n
            &&& key_counts.contains_key("signed_curve25519"@) && n > 0x7fff_ffff_ffff_ffff
                ==> after.uploaded_signed_key_count == 0x7fff_ffff_ffff_ffff
            &&& !key_counts.contains_key("signed_curve25519"@) ==> after == account
            &&& after.shared == account.shared
            &&& after.user_id == account.user_id
            &&& after.device_id == account.device_id
            &&& after.identity_keys == account.identity_keys
        }),
{
}

/// Two accounts that take in the same count of signed curve25519 keys have the
/// same count afterwards.
pub proof fn lemma_key_counts_forget_the_past(
    one: AccountView,
    other: AccountView,
    key_counts: Map<Seq<char>, u64>,
)
    requires
        key_counts.contains_key("signed_curve25519"@),
    ensures
        one.with_key_counts(key_counts).uploaded_signed_key_count == other.with_key_counts(
            key_counts,
        ).uploaded_signed_key_count,
        one.with_key_counts(key_counts).uploaded_signed_key_count >= 0,
{
}

/// The answer to an upload marks the account as shared and sets the count to the
/// one of signed curve25519 keys, or to nothing where there is none.
pub proof fn lemma_upload_response_is_taken_in(
    account: AccountView,
    key_counts: Map<Seq<char>, u64>,
)
    ensures
        ({
            let after = account.with_upload_response(key_counts);
            let n = key_counts["signed_curve25519"@];
            &&& after.shared
            &&& key_counts.contains_key("signed_curve25519"@) && n <= 0x7fff_ffff_ffff_ffff
                ==> after.uploaded_signed_key_count == n
            &&& key_counts.contains_key("signed_curve25519"@) && n > 0x7fff_ffff_ffff_ffff
                ==> after.uploaded_signed_key_count == 0x7fff_ffff_ffff_ffff
            &&& !key_counts.contains_key("signed_curve25519"@) ==> after.uploaded_signed_key_count
                == 0
            &&& after.user_id == account.user_id
            &&& after.device_id == account.device_id
            &&& after.identity_keys == account.identity_keys
        }),
{
}

/// The count among key counts is the one under the name of signed curve25519
/// keys, and no other.
pub proof fn lemma_signed_key_count(key_counts: Map<Seq<char>, u64>, name: Seq<char>, count: u64)
    ensures
        signed_key_count(key_counts.insert("signed_curve25519"@, count)) == Some(count as int),
        signed_key_count(key_counts.remove("signed_curve25519"@)) is None,
        name != "signed_curve25519"@ ==> signed_key_count(key_counts.insert(name, count))
            == signed_key_count(key_counts),
{
}

/// Marking an account as shared changes the mark alone.
pub proof fn lemma_marked_as_shared(account: AccountView)
    ensures
        ({
            let after = account.with_shared();
            &&& after.shared
            &&& after.uploaded_signed_key_count == account.uploaded_signed_key_count
            &&& after.user_id == account.user_id
            &&& after.device_id == account.device_id
            &&& after.identity_keys == account.identity_keys
        }),
{
}

/// Keys are generated exactly while the known count is below half of what the
/// account can hold, and so many that the half is reached.
pub proof fn lemma_half_is_reached(account: AccountView, max_keys: usize)
    ensures
        ({
            let count = account.uploaded_signed_key_count;
            match account.keys_to_generate(max_keys as int) {
                Some(n) => {
                    &&& count >= 0
                    &&& n > 0
                    &&& 2 * (count + n) <= max_keys < 2 * (count + n) + 2
                },
                None => count < 0 || 2 * (count + 1) > max_keys,
            }
        }),
        2 * wanted_on_server(max_keys as int) <= max_keys < 2 * wanted_on_server(max_keys as int)
            + 2,
{
}

/// Nothing is uploaded exactly if the account has been shared and half of what
/// it can hold is on the server, or the count is negative.
pub proof fn lemma_when_to_upload(account: AccountView, max_keys: usize)
    ensures
        !account.shared ==> account.should_upload_keys(max_keys as int),
        account.shared ==> (account.should_upload_keys(max_keys as int) <==> 0
            <= account.uploaded_signed_key_count && 2 * (account.uploaded_signed_key_count + 1)
            <= max_keys),
{
}

/// One more key on the server is one less to generate.
pub proof fn lemma_one_more_on_the_server(account: AccountView, reported: u64, max_keys: usize)
    requires
        reported < 0x7fff_ffff_ffff_ffff,
    ensures
        ({
            let now = account.with_reported_count(reported as int).keys_to_generate(
                max_keys as int,
            );
            let later = account.with_reported_count(reported + 1).keys_to_generate(max_keys as int);
            match later {
                Some(n) => now == Some(n + 1),
                None => now is None || now == Some(1int),
            }
        }),
{
}

/// A pickled account holds what the account holds, and the pickle.
pub proof fn lemma_pickled_account(account: AccountView, pickle: Seq<char>)
    ensures
        ({
            let pickled = account.pickled(pickle);
            &&& pickled.user_id == account.user_id
            &&& pickled.device_id == account.device_id
            &&& pickled.pickle == pickle
            &&& pickled.shared == account.shared
            &&& pickled.uploaded_signed_key_count == account.uploaded_signed_key_count
        }),
{
}

/// A restored account holds what was pickled, and the identity keys that the
/// pickle held.
pub proof fn lemma_restored_account(pickle: PickledAccountView, keys: IdentityKeysView)
    ensures
        ({
            let account = AccountView::restored(pickle, keys);
            &&& account.user_id == pickle.user_id
            &&& account.device_id == pickle.device_id
            &&& account.identity_keys.curve25519 == keys.curve25519
            &&& account.identity_keys.ed25519 == keys.ed25519
            &&& account.shared == pickle.shared
            &&& account.uploaded_signed_key_count == pickle.uploaded_signed_key_count
        }),
{
}

/// The model of a pickled account has all of its fields.
pub proof fn lemma_pickled_account_model(pickled: PickledAccount)
    ensures
        pickled@.user_id == pickled.user_id@,
        pickled@.device_id == pickled.device_id@,
        pickled@.pickle == pickled.pickle@,
        pickled@.shared == pickled.shared,
        pickled@.uploaded_signed_key_count == pickled.uploaded_signed_key_count,
{
}

/// Accounts are the same exactly if both identity keys agree and both or none
/// have been shared.
pub proof fn lemma_when_accounts_are_the_same(one: AccountView, other: AccountView)
    ensures
        one.same_account(other) ==> one.shared == other.shared,
        one.same_account(other) ==> one.identity_keys.curve25519 == other.identity_keys.curve25519,
        one.same_account(other) ==> one.identity_keys.ed25519 == other.identity_keys.ed25519,
        one.shared == other.shared && one.identity_keys.curve25519
            == other.identity_keys.curve25519 && one.identity_keys.ed25519
            == other.identity_keys.ed25519 ==> one.same_account(other),
{
}

/// `==` on accounts goes by the identity keys and the mark of sharing alone.
pub proof fn lemma_equality_of_accounts(one: ReadOnlyAccount, other: ReadOnlyAccount)
    ensures
        one.eq_spec(&other) <==> one@.identity_keys.curve25519 == other@.identity_keys.curve25519
            && one@.identity_keys.ed25519 == other@.identity_keys.ed25519 && one@.shared
            == other@.shared,
{
}

} // verus!
