//! Reading a decrypted to-device event.
use vstd::prelude::*;
use vstd::string::*;

use crate::account::{AccountView, ReadOnlyAccount};
use crate::error::{EventError, EventErrorView, OlmError, OlmErrorView};
use crate::identifiers::{DeviceKeyAlgorithm, UserId};
use crate::json::{
    get_field, json_error_text, json_field, json_key_table, json_string, json_text, json_to_device_event, json_user_id, key_table_from_value,
    pair_table, parse_json, parsed_json, to_device_event_from_value, user_id_from_value,
};
use crate::keys::text_table;
use crate::string_map::StringMap;

verus! {

/// What a decrypted event says of its sender and its recipient.
pub struct EventParties {
    /// The user that sent the event.
    pub sender: UserId,
    /// The user that the event is meant for.
    pub recipient: UserId,
    /// The keys of the device that the event is meant for, by the names of
    /// their algorithms.
    pub recipient_keys: StringMap<String>,
    /// The keys of the device that sent the event, by the names of their
    /// algorithms.
    pub keys: StringMap<String>,
}

/// The model of `EventParties`.
#[verifier::ext_equal]
pub ghost struct EventPartiesView {
    pub sender: Seq<char>,
    pub recipient: Seq<char>,
    pub recipient_keys: Map<Seq<char>, Seq<char>>,
    pub keys: Map<Seq<char>, Seq<char>>,
}

impl View for EventParties {
    type V = EventPartiesView;

    open spec fn view(&self) -> EventPartiesView {
        EventPartiesView {
            sender: self.sender@,
            recipient: self.recipient@,
            recipient_keys: text_table(self.recipient_keys@),
            keys: text_table(self.keys@),
        }
    }
}

/// The ed25519 key in a table of keys, where there is one.
pub open spec fn ed25519_key(keys: Map<Seq<char>, Seq<char>>) -> Option<Seq<char>> {
    let name = DeviceKeyAlgorithm::Ed25519.name();
    if keys.contains_key(name) {
        Some(keys[name])
    } else {
        None
    }
}

impl AccountView {
    /// The signing key of a sender, if the parties are the ones that the
    /// account expects of a message from that sender.
    pub open spec fn checked_parties(self, sender: Seq<char>, parties: EventPartiesView) -> Result<
        Seq<char>,
        EventErrorView,
    > {
        if parties.recipient != self.user_id || parties.sender != sender {
            Err(EventErrorView::MissmatchedSender)
        } else {
            match ed25519_key(parties.recipient_keys) {
                None => Err(EventErrorView::MissingSigningKey),
                Some(key) => if key != self.identity_keys.ed25519 {
                    Err(EventErrorView::MissmatchedKeys)
                } else {
                    match ed25519_key(parties.keys) {
                        None => Err(EventErrorView::MissingSigningKey),
                        Some(key) => Ok(key),
                    }
                },
            }
        }
    }
}

impl ReadOnlyAccount {
    /// Check that the plaintext and encrypted senders match and that the
    /// message was meant for us. Returns the signing key of the sender.
    pub fn check_event_parties(&self, sender: &UserId, parties: &EventParties) -> (r: Result<
        String,
        EventError,
    >)
        ensures
            match (self@.checked_parties(sender@, parties@), r) {
                (Ok(key), Ok(k)) => k@ == key,
                (Err(error), Err(e)) => e@ == error,
                _ => false,
            },
    {
        if !parties.recipient.same_as(self.user_id()) || !sender.same_as(&parties.sender) {
            return Err(EventError::MissmatchedSender);
        }
        let algorithm: &str = DeviceKeyAlgorithm::Ed25519.as_str();
        match parties.recipient_keys.get(algorithm) {
            Some(key) => {
                if *self.identity_keys().ed25519() != *key {
                    return Err(EventError::MissmatchedKeys);
                }
            },
            None => {
                return Err(EventError::MissingSigningKey);
            },
        }
        match parties.keys.get(algorithm) {
            Some(key) => Ok(key.clone()),
            None => Err(EventError::MissingSigningKey),
        }
    }
}

/// What was found in the fields of a decrypted event: nothing, what could be
/// read, or the error with which it was refused.
pub struct EventFields {
    /// The user that sent the event.
    pub sender: Option<Result<UserId, serde_json::Error>>,
    /// The user that the event is meant for.
    pub recipient: Option<Result<UserId, serde_json::Error>>,
    /// The keys of the device that the event is meant for.
    pub recipient_keys: Option<Result<StringMap<String>, serde_json::Error>>,
    /// The keys of the device that sent the event.
    pub keys: Option<Result<StringMap<String>, serde_json::Error>>,
}

/// The model of `EventFields`. An error is known by its message.
#[verifier::ext_equal]
pub ghost struct EventFieldsView {
    pub sender: Option<Result<Seq<char>, Seq<char>>>,
    pub recipient: Option<Result<Seq<char>, Seq<char>>>,
    pub recipient_keys: Option<Result<Map<Seq<char>, Seq<char>>, Seq<char>>>,
    pub keys: Option<Result<Map<Seq<char>, Seq<char>>, Seq<char>>>,
}

/// The model of a field with a user ID.
pub open spec fn user_id_field(field: Option<Result<UserId, serde_json::Error>>) -> Option<
    Result<Seq<char>, Seq<char>>,
> {
    match field {
        None => None,
        Some(Ok(id)) => Some(Ok(id@)),
        Some(Err(error)) => Some(Err(json_error_text(error))),
    }
}

/// The model of a field with keys.
pub open spec fn key_table_field(
    field: Option<Result<StringMap<String>, serde_json::Error>>,
) -> Option<Result<Map<Seq<char>, Seq<char>>, Seq<char>>> {
    match field {
        None => None,
        Some(Ok(table)) => Some(Ok(text_table(table@))),
        Some(Err(error)) => Some(Err(json_error_text(error))),
    }
}

impl View for EventFields {
    type V = EventFieldsView;

    open spec fn view(&self) -> EventFieldsView {
        EventFieldsView {
            sender: user_id_field(self.sender),
            recipient: user_id_field(self.recipient),
            recipient_keys: key_table_field(self.recipient_keys),
            keys: key_table_field(self.keys),
        }
    }
}

/// What a field holds, or the error that it is missing or malformed.
pub open spec fn required<T>(name: Seq<char>, field: Option<Result<T, Seq<char>>>) -> Result<
    T,
    OlmErrorView,
> {
    match field {
        None => Err(OlmErrorView::EventError(EventErrorView::MissingField(name))),
        Some(Err(error)) => Err(OlmErrorView::JsonError(error)),
        Some(Ok(value)) => Ok(value),
    }
}

impl EventFields {
    /// The error of the first field that is not there or malformed, where it is
    /// malformed.
    pub open spec fn json_error(self) -> Option<serde_json::Error> {
        match self.sender {
            Some(Err(error)) => Some(error),
            None => None,
            Some(Ok(_)) => match self.recipient {
                Some(Err(error)) => Some(error),
                None => None,
                Some(Ok(_)) => match self.recipient_keys {
                    Some(Err(error)) => Some(error),
                    None => None,
                    Some(Ok(_)) => match self.keys {
                        Some(Err(error)) => Some(error),
                        _ => None,
                    },
                },
            },
        }
    }
}

impl EventFieldsView {
    /// The parties that the fields name, or the first error in the order of
    /// sender, recipient, recipient keys and keys.
    pub open spec fn parties(self) -> Result<EventPartiesView, OlmErrorView> {
        match required("sender"@, self.sender) {
            Err(error) => Err(error),
            Ok(sender) => match required("recipient"@, self.recipient) {
                Err(error) => Err(error),
                Ok(recipient) => match required("recipient_keys"@, self.recipient_keys) {
                    Err(error) => Err(error),
                    Ok(recipient_keys) => match required("keys"@, self.keys) {
                        Err(error) => Err(error),
                        Ok(keys) => Ok(
                            EventPartiesView { sender, recipient, recipient_keys, keys },
                        ),
                    },
                },
            },
        }
    }
}

/// What a field holds, or the error that it is missing or malformed.
fn require<T>(name: &str, field: Option<Result<T, serde_json::Error>>) -> (r: Result<T, OlmError>)
    ensures
        match (field, r) {
            (None, Err(e)) => e@ == OlmErrorView::EventError(EventErrorView::MissingField(name@)),
            (Some(Err(error)), Err(e)) => e == OlmError::JsonError(error),
            (Some(Ok(value)), Ok(v)) => v == value,
            _ => false,
        },
{
    match field {
        None => Err(OlmError::EventError(EventError::MissingField(name.to_owned()))),
        Some(Err(error)) => Err(OlmError::JsonError(error)),
        Some(Ok(value)) => Ok(value),
    }
}

impl EventFields {
    /// The parties that the fields name, or the first error in the order of
    /// sender, recipient, recipient keys and keys.
    pub fn parties(self) -> (r: Result<EventParties, OlmError>)
        ensures
            match (self@.parties(), r) {
                (Ok(parties), Ok(p)) => p@ == parties,
                (Err(error), Err(e)) => e@ == error,
                _ => false,
            },
            r matches Err(OlmError::JsonError(e)) ==> self.json_error() == Some(e),
    {
        let sender: UserId = match require("sender", self.sender) {
            Ok(id) => id,
            Err(error) => {
                return Err(error);
            },
        };
        let recipient: UserId = match require("recipient", self.recipient) {
            Ok(id) => id,
            Err(error) => {
                return Err(error);
            },
        };
        let recipient_keys: StringMap<String> = match require(
            "recipient_keys",
            self.recipient_keys,
        ) {
            Ok(keys) => keys,
            Err(error) => {
                return Err(error);
            },
        };
        let keys: StringMap<String> = match require("keys", self.keys) {
            Ok(keys) => keys,
            Err(error) => {
                return Err(error);
            },
        };
        Ok(EventParties { sender, recipient, recipient_keys, keys })
    }
}

impl AccountView {
    /// The event and the signing key of its sender, if its parties are the
    /// ones that the account expects of a message from that sender.
    pub open spec fn accepted_event(
        self,
        sender: Seq<char>,
        fields: EventFieldsView,
        event: Result<Seq<char>, Seq<char>>,
    ) -> Result<(Seq<char>, Seq<char>), OlmErrorView> {
        match fields.parties() {
            Err(error) => Err(error),
            Ok(parties) => match self.checked_parties(sender, parties) {
                Err(error) => Err(OlmErrorView::EventError(error)),
                Ok(signing_key) => match event {
                    Err(error) => Err(OlmErrorView::JsonError(error)),
                    Ok(event) => Ok((event, signing_key)),
                },
            },
        }
    }

    /// The event that a decrypted text holds and the signing key of its
    /// sender, or the error.
    pub open spec fn parsed_event(self, sender: Seq<char>, plaintext: Seq<char>) -> Result<
        (Seq<char>, Seq<char>),
        OlmErrorView,
    > {
        match parsed_json(plaintext) {
            Err(error) => Err(OlmErrorView::JsonError(error)),
            Ok(value) => self.accepted_event(
                sender,
                event_fields(value),
                json_to_device_event(value),
            ),
        }
    }
}

/// The user ID in a field of a JSON value.
pub open spec fn json_user_id_field(value: Seq<char>, name: Seq<char>) -> Option<
    Result<Seq<char>, Seq<char>>,
> {
    match json_field(value, name) {
        None => None,
        Some(field) => Some(json_user_id(field)),
    }
}

/// The table of keys in a field of a JSON value.
pub open spec fn json_key_table_field(value: Seq<char>, name: Seq<char>) -> Option<
    Result<Map<Seq<char>, Seq<char>>, Seq<char>>,
> {
    match json_field(value, name) {
        None => None,
        Some(field) => Some(json_key_table(field)),
    }
}

/// The fields of a JSON value that name the parties of an event.
pub open spec fn event_fields(value: Seq<char>) -> EventFieldsView {
    EventFieldsView {
        sender: json_user_id_field(value, "sender"@),
        recipient: json_user_id_field(value, "recipient"@),
        recipient_keys: json_key_table_field(value, "recipient_keys"@),
        keys: json_key_table_field(value, "keys"@),
    }
}

/// The user ID in a field of a JSON value.
fn read_user_id(value: &serde_json::Value, name: &str) -> (r: Option<
    Result<UserId, serde_json::Error>,
>)
    ensures
        user_id_field(r) == json_user_id_field(json_text(*value), name@),
        r matches Some(Ok(id)) ==> json_field(json_text(*value), name@) == Some(json_string(id@)),
{
    match get_field(value, name) {
        None => None,
        Some(field) => match user_id_from_value(field) {
            Ok(id) => Some(Ok(UserId::from_valid(id))),
            Err(error) => Some(Err(error)),
        },
    }
}

/// The table of keys in a field of a JSON value.
fn read_key_table(value: &serde_json::Value, name: &str) -> (r: Option<
    Result<StringMap<String>, serde_json::Error>,
>)
    ensures
        key_table_field(r) == json_key_table_field(json_text(*value), name@),
{
    match get_field(value, name) {
        None => None,
        Some(field) => match key_table_from_value(field) {
            Ok(pairs) => Some(Ok(collect_pairs(&pairs))),
            Err(error) => Some(Err(error)),
        },
    }
}

/// The table that pairs make up.
fn collect_pairs(pairs: &Vec<(String, String)>) -> (r: StringMap<String>)
    ensures
        text_table(r@) == pair_table(pairs@),
{
    let mut table: StringMap<String> = StringMap::new();
    let mut i: usize = 0;
    assert(text_table(table@) =~= pair_table(pairs@.take(0)));
    while i < pairs.len()
        invariant
            i <= pairs@.len(),
            text_table(table@) == pair_table(pairs@.take(i as int)),
        decreases pairs@.len() - i,
    {
        let ghost before = table@;
        table.insert(pairs[i].0.clone(), pairs[i].1.clone());
        i = i + 1;
        proof {
            assert(pairs@.take(i as int).drop_last() =~= pairs@.take(i - 1));
            assert(text_table(table@) =~= text_table(before).insert(
                pairs@[i - 1].0@,
                pairs@[i - 1].1@,
            ));
        }
    }
    assert(pairs@.take(i as int) =~= pairs@);
    table
}

/// The model of an event that was read or refused.
pub open spec fn event_text(event: Result<String, serde_json::Error>) -> Result<
    Seq<char>,
    Seq<char>,
> {
    match event {
        Ok(text) => Ok(text@),
        Err(error) => Err(json_error_text(error)),
    }
}

impl ReadOnlyAccount {
    /// Check that the fields of a decrypted event are there, that the plaintext
    /// and encrypted senders match and that the message was meant for us.
    /// Returns the text of the event and the signing key of the sender.
    ///
    /// # Arguments
    ///
    /// * `sender` - The sender of the encrypted event.
    ///
    /// * `fields` - The fields of the decrypted event.
    ///
    /// * `event` - The text of the decrypted event, or the error with which it
    /// was refused.
    pub fn accept_event(
        &self,
        sender: &UserId,
        fields: EventFields,
        event: Result<String, serde_json::Error>,
    ) -> (r: Result<(String, String), OlmError>)
        ensures
            match (self@.accepted_event(sender@, fields@, event_text(event)), r) {
                (Ok((event, signing_key)), Ok((e, k))) => e@ == event && k@ == signing_key,
                (Err(error), Err(e)) => e@ == error,
                _ => false,
            },
            r matches Err(OlmError::JsonError(e)) ==> match fields.json_error() {
                Some(error) => e == error,
                None => event == Err::<String, serde_json::Error>(e),
            },
    {
        let parties: EventParties = match fields.parties() {
            Ok(parties) => parties,
            Err(error) => {
                return Err(error);
            },
        };
        let signing_key: String = match self.check_event_parties(sender, &parties) {
            Ok(key) => key,
            Err(error) => {
                return Err(OlmError::EventError(error));
            },
        };
        match event {
            Ok(event) => Ok((event, signing_key)),
            Err(error) => Err(OlmError::JsonError(error)),
        }
    }

    /// Parse a decrypted Olm message, check that the plaintext and encrypted
    /// senders match and that the message was meant for us. Returns the text of
    /// the event and the signing key of the sender.
    pub fn parse_decrypted_to_device_event(&self, sender: &UserId, plaintext: &str) -> (r: Result<
        (String, String),
        OlmError,
    >)
        ensures
            match (self@.parsed_event(sender@, plaintext@), r) {
                (Ok((event, signing_key)), Ok((e, k))) => e@ == event && k@ == signing_key,
                (Err(error), Err(e)) => e@ == error,
                _ => false,
            },
            r is Ok ==> match parsed_json(plaintext@) {
                Ok(value) => {
                    &&& json_field(value, "sender"@) == Some(json_string(sender@))
                    &&& json_field(value, "recipient"@) == Some(json_string(self@.user_id))
                },
                Err(_) => false,
            },
    {
        let value: serde_json::Value = match parse_json(plaintext) {
            Ok(value) => value,
            Err(error) => {
                return Err(OlmError::JsonError(error));
            },
        };
        let fields = EventFields {
            sender: read_user_id(&value, "sender"),
            recipient: read_user_id(&value, "recipient"),
            recipient_keys: read_key_table(&value, "recipient_keys"),
            keys: read_key_table(&value, "keys"),
        };
        self.accept_event(sender, fields, to_device_event_from_value(value))
    }
}

/// An event is taken only if it names the account as its recipient, the sender
/// of the message as its sender, and the signing key of the account as that of
/// the recipient. The key that is returned is then the one that the event
/// names for its sender.
pub proof fn lemma_event_is_for_us(
    account: AccountView,
    sender: Seq<char>,
    fields: EventFieldsView,
    event: Result<Seq<char>, Seq<char>>,
)
    requires
        account.accepted_event(sender, fields, event) is Ok,
    ensures
        fields.sender == Some(Ok::<Seq<char>, Seq<char>>(sender)),
        fields.recipient == Some(Ok::<Seq<char>, Seq<char>>(account.user_id)),
        match fields.recipient_keys {
            Some(Ok(keys)) => ed25519_key(keys) == Some(account.identity_keys.ed25519),
            _ => false,
        },
        match fields.keys {
            Some(Ok(keys)) => ed25519_key(keys) == Some(
                account.accepted_event(sender, fields, event)->Ok_0.1,
            ),
            _ => false,
        },
        event == Ok::<Seq<char>, Seq<char>>(
            account.accepted_event(sender, fields, event)->Ok_0.0,
        ),
{
}

/// An event whose fields are all there, which comes from the sender of the
/// message and is meant for our device, is taken.
pub proof fn lemma_event_for_us_is_accepted(
    account: AccountView,
    parties: EventPartiesView,
    event: Seq<char>,
)
    requires
        parties.recipient == account.user_id,
        ed25519_key(parties.recipient_keys) == Some(account.identity_keys.ed25519),
        ed25519_key(parties.keys) is Some,
    ensures
        ({
            let fields = EventFieldsView {
                sender: Some(Ok(parties.sender)),
                recipient: Some(Ok(parties.recipient)),
                recipient_keys: Some(Ok(parties.recipient_keys)),
                keys: Some(Ok(parties.keys)),
            };
            account.accepted_event(parties.sender, fields, Ok(event)) == Ok::<
                (Seq<char>, Seq<char>),
                OlmErrorView,
            >((event, ed25519_key(parties.keys)->0))
        }),
{
}

} // verus!
