//! The account of a device.
use vstd::prelude::*;
use vstd::string::*;

use crate::error::OlmAccountError;
use crate::identifiers::{DeviceKeyAlgorithm, UserId};
use crate::keys::{IdentityKeys, IdentityKeysView};
use crate::string_map::StringMap;

verus! {

/// A typed representation of a base64 encoded string containing the account
/// pickle.
#[derive(Debug)]
pub struct AccountPickle(String);

impl View for AccountPickle {
    type V = Seq<char>;

    closed spec fn view(&self) -> Seq<char> {
        self.0@
    }
}

impl AccountPickle {
    /// Get the string representation of the pickle.
    pub fn as_str(&self) -> (r: &str)
        ensures
            r@ == self@,
    {
        self.0.as_str()
    }
}

impl From<String> for AccountPickle {
    fn from(value: String) -> (r: Self)
        ensures
            r@ == value@,
    {
        Self(value)
    }
}

impl vstd::std_specs::convert::FromSpecImpl<String> for AccountPickle {
    open spec fn obeys_from_spec() -> bool {
        true
    }

    closed spec fn from_spec(value: String) -> Self {
        AccountPickle(value)
    }
}

impl Clone for AccountPickle {
    fn clone(&self) -> (r: Self)
        ensures
            r == *self,
    {
        AccountPickle(self.0.clone())
    }
}

/// A pickled version of an `Account`.
///
/// Holds all the information that needs to be stored in a database to restore
/// an account.
#[derive(Debug)]
pub struct PickledAccount {
    /// The user id of the account owner.
    pub user_id: UserId,
    /// The device id of the account owner.
    pub device_id: String,
    /// The pickled version of the Olm account.
    pub pickle: AccountPickle,
    /// Was the account shared.
    pub shared: bool,
    /// The number of uploaded one-time keys we have on the server.
    pub uploaded_signed_key_count: i64,
}

/// The model of `PickledAccount`.
pub ghost struct PickledAccountView {
    pub user_id: Seq<char>,
    pub device_id: Seq<char>,
    pub pickle: Seq<char>,
    pub shared: bool,
    pub uploaded_signed_key_count: int,
}

impl View for PickledAccount {
    type V = PickledAccountView;

    open spec fn view(&self) -> PickledAccountView {
        PickledAccountView {
            user_id: self.user_id@,
            device_id: self.device_id@,
            pickle: self.pickle@,
            shared: self.shared,
            uploaded_signed_key_count: self.uploaded_signed_key_count as int,
        }
    }
}

impl Clone for PickledAccount {
    fn clone(&self) -> (r: Self)
        ensures
            r == *self,
    {
        PickledAccount {
            user_id: self.user_id.clone(),
            device_id: self.device_id.clone(),
            pickle: self.pickle.clone(),
            shared: self.shared,
            uploaded_signed_key_count: self.uploaded_signed_key_count,
        }
    }
}

/// Account holding identity keys for which sessions can be created.
///
/// An account is the central identity for encrypted communication between two
/// devices. The private keys are not here: what needs them is handed in.
///
/// This is the state of one account as a plain value, with one owner. It cannot
/// be cloned, since a clone of an account is another handle to the same account:
/// what is marked or counted through one handle is seen through all. Handles
/// that share a state are made where the account is joined to its private keys.
pub struct ReadOnlyAccount {
    user_id: UserId,
    device_id: String,
    identity_keys: IdentityKeys,
    shared: bool,
    /// The number of signed one-time keys we have uploaded to the server.
    uploaded_signed_key_count: i64,
}

/// The model of `ReadOnlyAccount`.
pub ghost struct AccountView {
    pub user_id: Seq<char>,
    pub device_id: Seq<char>,
    pub identity_keys: IdentityKeysView,
    pub shared: bool,
    pub uploaded_signed_key_count: int,
}

impl View for ReadOnlyAccount {
    type V = AccountView;

    closed spec fn view(&self) -> AccountView {
        AccountView {
            user_id: self.user_id@,
            device_id: self.device_id@,
            identity_keys: self.identity_keys@,
            shared: self.shared,
            uploaded_signed_key_count: self.uploaded_signed_key_count as int,
        }
    }
}

/// The count that is kept of one that the server reports.
pub open spec fn kept_count(reported: int) -> int {
    if reported <= i64::MAX {
        reported
    } else {
        i64::MAX as int
    }
}

/// The number of one-time keys that are to be on the server, for an account
/// that can hold so many.
pub open spec fn wanted_on_server(max_keys: int) -> int {
    max_keys / 2
}

impl AccountView {
    /// A fresh account.
    pub open spec fn fresh(
        user_id: Seq<char>,
        device_id: Seq<char>,
        identity_keys: IdentityKeysView,
    ) -> AccountView {
        AccountView {
            user_id,
            device_id,
            identity_keys,
            shared: false,
            uploaded_signed_key_count: 0,
        }
    }

    /// The account once the server has reported a key count.
    pub open spec fn with_reported_count(self, reported: int) -> AccountView {
        AccountView { uploaded_signed_key_count: kept_count(reported), ..self }
    }

    /// The account once it has been shared.
    pub open spec fn with_shared(self) -> AccountView {
        AccountView { shared: true, ..self }
    }

    /// How many one-time keys are to be generated, where any are.
    pub open spec fn keys_to_generate(self, max_keys: int) -> Option<int> {
        if 0 <= self.uploaded_signed_key_count < wanted_on_server(max_keys) {
            Some(wanted_on_server(max_keys) - self.uploaded_signed_key_count)
        } else {
            None
        }
    }

    /// Whether device keys or one-time keys are to be uploaded.
    pub open spec fn should_upload_keys(self, max_keys: int) -> bool {
        !self.shared || self.keys_to_generate(max_keys) is Some
    }

    /// The account in pickled form.
    pub open spec fn pickled(self, pickle: Seq<char>) -> PickledAccountView {
        PickledAccountView {
            user_id: self.user_id,
            device_id: self.device_id,
            pickle,
            shared: self.shared,
            uploaded_signed_key_count: self.uploaded_signed_key_count,
        }
    }

    /// The account that a pickled one stands for, with the identity keys that
    /// its pickle holds.
    pub open spec fn restored(
        pickle: PickledAccountView,
        identity_keys: IdentityKeysView,
    ) -> AccountView {
        AccountView {
            user_id: pickle.user_id,
            device_id: pickle.device_id,
            identity_keys,
            shared: pickle.shared,
            uploaded_signed_key_count: pickle.uploaded_signed_key_count,
        }
    }

    /// What two accounts have to share to be equal.
    pub open spec fn same_account(self, other: AccountView) -> bool {
        self.identity_keys == other.identity_keys && self.shared == other.shared
    }
}

/// What is to be uploaded.
pub struct KeysForUpload {
    /// Whether the device keys are to be uploaded.
    pub device_keys: bool,
    /// How many one-time keys are to be generated, signed and uploaded, where
    /// any are.
    pub one_time_keys: Option<u64>,
}

impl ReadOnlyAccount {
    /// Create a fresh new account from its identity keys.
    pub fn new(user_id: &UserId, device_id: &str, identity_keys: IdentityKeys) -> (r: Self)
        ensures
            r@ == AccountView::fresh(user_id@, device_id@, identity_keys@),
    {
        ReadOnlyAccount {
            user_id: user_id.clone(),
            device_id: device_id.to_owned(),
            identity_keys,
            shared: false,
            uploaded_signed_key_count: 0,
        }
    }

    /// Get the user id of the owner of the account.
    pub fn user_id(&self) -> (r: &UserId)
        ensures
            r@ == self@.user_id,
    {
        &self.user_id
    }

    /// Get the device id that owns this account.
    pub fn device_id(&self) -> (r: &String)
        ensures
            r@ == self@.device_id,
    {
        &self.device_id
    }

    /// Get the public parts of the identity keys for the account.
    pub fn identity_keys(&self) -> (r: &IdentityKeys)
        ensures
            r@ == self@.identity_keys,
    {
        &self.identity_keys
    }

    /// Update the uploaded key count.
    ///
    /// # Arguments
    ///
    /// * `new_count` - The new count that was reported by the server.
    pub fn update_uploaded_key_count(&mut self, new_count: u64)
        ensures
            final(self)@ == old(self)@.with_reported_count(new_count as int),
    {
        let key_count: i64 = if new_count <= i64::MAX as u64 {
            new_count as i64
        } else {
            i64::MAX
        };
        self.uploaded_signed_key_count = key_count;
    }

    /// Get the currently known uploaded key count.
    pub fn uploaded_key_count(&self) -> (r: i64)
        ensures
            r == self@.uploaded_signed_key_count,
    {
        self.uploaded_signed_key_count
    }

    /// Has the account been shared with the server.
    pub fn shared(&self) -> (r: bool)
        ensures
            r == self@.shared,
    {
        self.shared
    }

    /// Mark the account as shared.
    ///
    /// Messages shouldn't be encrypted with the session before it has been
    /// shared.
    pub fn mark_as_shared(&mut self)
        ensures
            final(self)@ == old(self)@.with_shared(),
    {
        self.shared = true;
    }

    /// The number of one-time keys that have to be generated, for an account
    /// that can hold `max_keys` of them.
    ///
    /// Returns an empty error if no keys need to be uploaded.
    pub fn generate_one_time_keys(&self, max_keys: usize) -> (r: Result<u64, ()>)
        ensures
            match r {
                Ok(n) => self@.keys_to_generate(max_keys as int) == Some(n as int),
                Err(_) => self@.keys_to_generate(max_keys as int) is None,
            },
    {
        let uploaded: i64 = self.uploaded_key_count();
        let count: u64 = uploaded as u64;
        let max_on_server: u64 = (max_keys as u64) / 2;
        assert(uploaded < 0 ==> uploaded as u64 >= 0x8000_0000_0000_0000u64) by (bit_vector);
        if count >= max_on_server {
            return Err(());
        }
        Ok(max_on_server - count)
    }

    /// Should account or one-time keys be uploaded to the server, for an
    /// account that can hold `max_keys` one-time keys.
    pub fn should_upload_keys(&self, max_keys: usize) -> (r: bool)
        ensures
            r == self@.should_upload_keys(max_keys as int),
    {
        if !self.shared() {
            return true;
        }
        let uploaded: i64 = self.uploaded_key_count();
        let count: u64 = uploaded as u64;
        let max_keys: u64 = max_keys as u64;
        assert(uploaded < 0 ==> uploaded as u64 >= 0x8000_0000_0000_0000u64) by (bit_vector);
        // If there are more keys already uploaded than half of what the account
        // holds bail out returning false, this also avoids overflow.
        if count > max_keys / 2 {
            return false;
        }
        let key_count: u64 = (max_keys / 2) - count;
        key_count > 0
    }

    /// What has to be uploaded, for an account that can hold `max_keys`
    /// one-time keys.
    ///
    /// Returns None if no keys need to be uploaded.
    pub fn keys_for_upload(&self, max_keys: usize) -> (r: Option<KeysForUpload>)
        ensures
            match r {
                Some(keys) => {
                    &&& self@.should_upload_keys(max_keys as int)
                    &&& keys.device_keys == !self@.shared
                    &&& match keys.one_time_keys {
                        Some(n) => self@.keys_to_generate(max_keys as int) == Some(n as int),
                        None => self@.keys_to_generate(max_keys as int) is None,
                    }
                },
                None => !self@.should_upload_keys(max_keys as int),
            },
    {
        if !self.should_upload_keys(max_keys) {
            return None;
        }
        let one_time_keys: Option<u64> = match self.generate_one_time_keys(max_keys) {
            Ok(n) => Some(n),
            Err(_) => None,
        };
        Some(KeysForUpload { device_keys: !self.shared(), one_time_keys })
    }

    /// Store the account, with the pickle of its private part.
    pub fn pickle(&self, pickle: AccountPickle) -> (r: PickledAccount)
        ensures
            r@ == self@.pickled(pickle@),
    {
        PickledAccount {
            user_id: self.user_id().clone(),
            device_id: self.device_id().clone(),
            pickle,
            shared: self.shared(),
            uploaded_signed_key_count: self.uploaded_key_count(),
        }
    }

    /// Restore an account from a previously pickled one.
    ///
    /// # Arguments
    ///
    /// * `pickle` - The pickled version of the Account.
    ///
    /// * `unpickled` - The identity keys that the pickle of the private part
    /// holds, or the error with which it was refused. That unpickling gives back
    /// the keys that were pickled is not stated here, nor what it gives back of
    /// the one-time keys.
    pub fn from_pickle(
        pickle: PickledAccount,
        unpickled: Result<IdentityKeys, OlmAccountError>,
    ) -> (r: Result<Self, OlmAccountError>)
        ensures
            match (unpickled, r) {
                (Ok(keys), Ok(account)) => account@ == AccountView::restored(pickle@, keys@),
                (Err(error), Err(e)) => e == error,
                _ => false,
            },
    {
        match unpickled {
            Ok(identity_keys) => Ok(
                ReadOnlyAccount {
                    user_id: pickle.user_id,
                    device_id: pickle.device_id,
                    identity_keys,
                    shared: pickle.shared,
                    uploaded_signed_key_count: pickle.uploaded_signed_key_count,
                },
            ),
            Err(error) => Err(error),
        }
    }
}

impl ReadOnlyAccount {
    /// The account as it is now. Later changes to the account are not seen in
    /// what is returned here, nor the other way round.
    pub fn snapshot(&self) -> (r: Self)
        ensures
            r == *self,
    {
        ReadOnlyAccount {
            user_id: self.user_id.clone(),
            device_id: self.device_id.clone(),
            identity_keys: self.identity_keys.clone(),
            shared: self.shared,
            uploaded_signed_key_count: self.uploaded_signed_key_count,
        }
    }
}

impl PartialEq for ReadOnlyAccount {
    fn eq(&self, other: &Self) -> (r: bool) {
        self.identity_keys().same_as(other.identity_keys()) && self.shared() == other.shared()
    }
}

impl vstd::std_specs::cmp::PartialEqSpecImpl for ReadOnlyAccount {
    open spec fn obeys_eq_spec() -> bool {
        true
    }

    open spec fn eq_spec(&self, other: &Self) -> bool {
        self@.same_account(other@)
    }
}

/// The account that takes in what the server says.
pub struct Account {
    /// The account itself.
    pub inner: ReadOnlyAccount,
}

impl std::ops::Deref for Account {
    type Target = ReadOnlyAccount;

    fn deref(&self) -> (r: &ReadOnlyAccount)
        ensures
            *r == self.inner,
    {
        &self.inner
    }
}

/// The count of signed curve25519 keys among the counts of an answer of the
/// server.
pub open spec fn signed_key_count(key_counts: Map<Seq<char>, u64>) -> Option<int> {
    let name = DeviceKeyAlgorithm::SignedCurve25519.name();
    if key_counts.contains_key(name) {
        Some(key_counts[name] as int)
    } else {
        None
    }
}

impl AccountView {
    /// The account once it has seen the key counts of the server.
    pub open spec fn with_key_counts(self, key_counts: Map<Seq<char>, u64>) -> AccountView {
        match signed_key_count(key_counts) {
            Some(count) => self.with_reported_count(count),
            None => self,
        }
    }

    /// The account once the server has answered an upload of keys. Where the
    /// answer has no count, there are no keys on the server.
    pub open spec fn with_upload_response(self, key_counts: Map<Seq<char>, u64>) -> AccountView {
        self.with_shared().with_reported_count(
            match signed_key_count(key_counts) {
                Some(count) => count,
                None => 0,
            },
        )
    }
}

impl Account {
    /// Take in the counts of the one-time keys on the server, by the names of
    /// their algorithms.
    pub fn update_uploaded_key_count(&mut self, key_count: &StringMap<u64>)
        ensures
            final(self).inner@ == old(self).inner@.with_key_counts(key_count@),
    {
        if let Some(count) = key_count.get(DeviceKeyAlgorithm::SignedCurve25519.as_str()) {
            self.inner.update_uploaded_key_count(*count);
        }
    }

    /// Take in the answer of the server to an upload of keys. The one-time keys
    /// are then to be marked as published, and the account is to be saved.
    ///
    /// # Arguments
    ///
    /// * `one_time_key_counts` - The counts of the one-time keys on the server,
    /// by the names of their algorithms.
    pub fn receive_keys_upload_response(&mut self, one_time_key_counts: &StringMap<u64>)
        ensures
            final(self).inner@ == old(self).inner@.with_upload_response(one_time_key_counts@),
    {
        self.inner.mark_as_shared();
        let count: u64 = match one_time_key_counts.get(
            DeviceKeyAlgorithm::SignedCurve25519.as_str(),
        ) {
            Some(count) => *count,
            None => 0,
        };
        self.inner.update_uploaded_key_count(count);
    }
}

/// The count that is kept of one that the server reports is never negative.
pub proof fn lemma_reported_count(account: AccountView, reported: u64)
    ensures
        0 <= account.with_reported_count(reported as int).uploaded_signed_key_count <= i64::MAX,
        reported <= i64::MAX ==> account.with_reported_count(
            reported as int,
        ).uploaded_signed_key_count == reported,
{
}

/// Once an account has been shared, keys are to be uploaded exactly if one-time
/// keys are to be generated. A fresh account uploads in any case.
pub proof fn lemma_upload_means_generate(account: AccountView, max_keys: usize)
    ensures
        account.shared ==> (account.should_upload_keys(max_keys as int) <==> account.keys_to_generate(
            max_keys as int,
        ) is Some),
        !account.shared ==> account.should_upload_keys(max_keys as int),
{
}

/// Half of the keys that the account can hold are kept on the server: the keys
/// that are generated make up the difference, they fit the account, and once
/// the server has reported them nothing more is to be uploaded.
pub proof fn lemma_top_up(account: AccountView, max_keys: usize, key_counts: Map<Seq<char>, u64>)
    requires
        account.keys_to_generate(max_keys as int) matches Some(n) && signed_key_count(
            key_counts,
        ) == Some(account.uploaded_signed_key_count + n),
    ensures
        0 < account.keys_to_generate(max_keys as int)->0 <= max_keys,
        account.with_upload_response(key_counts).uploaded_signed_key_count == wanted_on_server(
            max_keys as int,
        ),
        !account.with_upload_response(key_counts).should_upload_keys(max_keys as int),
{
}

/// Device keys are to be uploaded until the server has answered an upload, and
/// not after that: an account never ceases to be shared. To mark it again
/// changes nothing, and marking it leaves the count of keys as it is.
pub proof fn lemma_stays_shared(account: AccountView, key_counts: Map<Seq<char>, u64>, reported: u64)
    ensures
        account.with_shared().shared,
        account.with_shared().with_shared() == account.with_shared(),
        account.with_shared().uploaded_signed_key_count == account.uploaded_signed_key_count,
        account.with_upload_response(key_counts).shared,
        account.shared ==> account.with_key_counts(key_counts).shared,
        account.shared ==> account.with_reported_count(reported as int).shared,
{
}

/// A change to the state of an account.
pub ghost enum AccountChange {
    /// The account is marked as shared.
    MarkAsShared,
    /// The server reports a key count.
    ReportedCount(u64),
    /// The server reports key counts by algorithm.
    KeyCounts(Map<Seq<char>, u64>),
    /// The server answers an upload of keys.
    UploadResponse(Map<Seq<char>, u64>),
}

impl AccountView {
    /// The account after a change.
    pub open spec fn changed(self, change: AccountChange) -> AccountView {
        match change {
            AccountChange::MarkAsShared => self.with_shared(),
            AccountChange::ReportedCount(reported) => self.with_reported_count(reported as int),
            AccountChange::KeyCounts(key_counts) => self.with_key_counts(key_counts),
            AccountChange::UploadResponse(key_counts) => self.with_upload_response(key_counts),
        }
    }

    /// The account after changes, whoever made each of them.
    pub open spec fn after_changes(self, changes: Seq<AccountChange>) -> AccountView
        decreases changes.len(),
    {
        if changes.len() == 0 {
            self
        } else {
            self.after_changes(changes.drop_last()).changed(changes.last())
        }
    }
}

/// After any changes, an account has been shared exactly if it was before or
/// one of them marked it as shared or answered an upload.
pub proof fn lemma_shared_after_changes(account: AccountView, changes: Seq<AccountChange>)
    ensures
        account.after_changes(changes).shared <==> account.shared || exists|i: int|
            0 <= i < changes.len() && ((#[trigger] changes[i]) is MarkAsShared || changes[i]
                is UploadResponse),
    decreases changes.len(),
{
    if changes.len() > 0 {
        let before = changes.drop_last();
        lemma_shared_after_changes(account, before);
        let n = changes.len() - 1;
        assert(changes[n] == changes.last());
        assert forall|i: int| 0 <= i < before.len() implies before[i] == #[trigger] changes[i] by {}
    }
}

/// What the server says changes neither the owner nor the identity keys.
pub proof fn lemma_identity_is_kept(account: AccountView, key_counts: Map<Seq<char>, u64>)
    ensures
        ({
            let after = account.with_upload_response(key_counts);
            &&& after.user_id == account.user_id
            &&& after.device_id == account.device_id
            &&& after.identity_keys == account.identity_keys
        }),
        ({
            let after = account.with_key_counts(key_counts);
            &&& after.user_id == account.user_id
            &&& after.device_id == account.device_id
            &&& after.identity_keys == account.identity_keys
            &&& after.shared == account.shared
        }),
{
}

/// An account that is pickled and restored, with the identity keys that its
/// pickle holds, is the same account.
pub proof fn lemma_pickle_round_trip(account: AccountView, pickle: Seq<char>)
    ensures
        AccountView::restored(account.pickled(pickle), account.identity_keys) == account,
        account.same_account(
            AccountView::restored(account.pickled(pickle), account.identity_keys),
        ),
{
}

/// Equality of accounts is an equivalence.
pub proof fn lemma_same_account_equivalence(a: AccountView, b: AccountView, c: AccountView)
    ensures
        a.same_account(a),
        a.same_account(b) ==> b.same_account(a),
        a.same_account(b) && b.same_account(c) ==> a.same_account(c),
{
}

/// The count of keys does not tell accounts apart; whether they have been
/// shared does.
pub proof fn lemma_same_account_ignores_count(account: AccountView, key_counts: Map<Seq<char>, u64>)
    ensures
        account.same_account(account.with_key_counts(key_counts)),
        account.same_account(account.with_upload_response(key_counts)) <==> account.shared,
{
}

} // verus!
