//! What holds of decrypted events: which are taken, and which error refuses the
//! others.
use vstd::prelude::*;

use crate::account::AccountView;
use crate::decrypted_event::{
    ed25519_key, event_fields, event_text, json_key_table_field, json_user_id_field, key_table_field, required,
    user_id_field, EventFields, EventFieldsView, EventParties, EventPartiesView,
};
use crate::error::{EventErrorView, OlmErrorView};
use crate::identifiers::UserId;
use crate::json::{
    json_error_text, json_field, json_key_table, json_to_device_event, json_user_id, parsed_json,
};
use crate::key_laws::lemma_text_table;
use crate::string_map::StringMap;

verus! {

/// The ed25519 key of a table is the entry under that name, whole.
pub proof fn lemma_ed25519_entry(keys: Map<Seq<char>, Seq<char>>, key: Seq<char>)
    ensures
        ed25519_key(keys.insert("ed25519"@, key)) == Some(key),
        ed25519_key(keys.remove("ed25519"@)) is None,
        keys.contains_key("ed25519"@) ==> ed25519_key(keys) == Some(keys["ed25519"@]),
{
}

/// An event from the sender of the message, for our user, with our ed25519 key
/// among the keys of the recipient, is taken, and the signing key that comes out
/// is the ed25519 entry among the keys of the sender.
pub proof fn lemma_right_parties(account: AccountView, parties: EventPartiesView)
    requires
        parties.recipient == account.user_id,
        parties.recipient_keys.contains_key("ed25519"@),
        parties.recipient_keys["ed25519"@] == account.identity_keys.ed25519,
        parties.keys.contains_key("ed25519"@),
    ensures
        account.checked_parties(parties.sender, parties) == Ok::<Seq<char>, EventErrorView>(
            parties.keys["ed25519"@],
        ),
{
}

/// Each way in which the parties of an event can be wrong has its error: other
/// users come first, then the keys of the recipient, then those of the sender.
pub proof fn lemma_wrong_parties(
    account: AccountView,
    sender: Seq<char>,
    parties: EventPartiesView,
)
    ensures
        ({
            let result = account.checked_parties(sender, parties);
            let users = parties.recipient == account.user_id && parties.sender == sender;
            let ours = parties.recipient_keys;
            &&& !users ==> result == Err::<Seq<char>, EventErrorView>(
                EventErrorView::MissmatchedSender,
            )
            &&& users && !ours.contains_key("ed25519"@) ==> result == Err::<
                Seq<char>,
                EventErrorView,
            >(EventErrorView::MissingSigningKey)
            &&& users && ours.contains_key("ed25519"@) && ours["ed25519"@]
                != account.identity_keys.ed25519 ==> result == Err::<Seq<char>, EventErrorView>(
                EventErrorView::MissmatchedKeys,
            )
            &&& users && ours.contains_key("ed25519"@) && ours["ed25519"@]
                == account.identity_keys.ed25519 && !parties.keys.contains_key("ed25519"@)
                ==> result == Err::<Seq<char>, EventErrorView>(EventErrorView::MissingSigningKey)
        }),
{
}

/// Whether an event is taken does not depend on keys of other algorithms.
pub proof fn lemma_other_keys_do_not_matter(
    account: AccountView,
    sender: Seq<char>,
    parties: EventPartiesView,
    name: Seq<char>,
    ours: Seq<char>,
    theirs: Seq<char>,
)
    requires
        name != "ed25519"@,
    ensures
        account.checked_parties(
            sender,
            (EventPartiesView {
                recipient_keys: parties.recipient_keys.insert(name, ours),
                keys: parties.keys.insert(name, theirs),
                ..parties
            }),
        ) == account.checked_parties(sender, parties),
{
}

/// A field that is there and well formed is taken as it is; another one gives
/// the error that it is missing, with its name, or that it is malformed.
pub proof fn lemma_required_field<T>(name: Seq<char>, value: T, message: Seq<char>)
    ensures
        required(name, Some(Ok::<T, Seq<char>>(value))) == Ok::<T, OlmErrorView>(value),
        required::<T>(name, None) == Err::<T, OlmErrorView>(
            OlmErrorView::EventError(EventErrorView::MissingField(name)),
        ),
        required::<T>(name, Some(Err(message))) == Err::<T, OlmErrorView>(
            OlmErrorView::JsonError(message),
        ),
{
}

/// The fields are read in the order of sender, recipient, recipient keys and
/// keys: the first one that is missing or malformed gives the error, whatever
/// the others are. Where all are well formed, the parties are what they hold.
pub proof fn lemma_fields_are_read_in_order(fields: EventFieldsView)
    ensures
        ({
            let result = fields.parties();
            let sender = fields.sender matches Some(Ok(_));
            let recipient = sender && fields.recipient matches Some(Ok(_));
            let recipient_keys = recipient && fields.recipient_keys matches Some(Ok(_));
            let keys = recipient_keys && fields.keys matches Some(Ok(_));
            &&& fields.sender is None ==> result == Err::<EventPartiesView, OlmErrorView>(
                OlmErrorView::EventError(EventErrorView::MissingField("sender"@)),
            )
            &&& fields.sender matches Some(Err(message)) ==> result == Err::<
                EventPartiesView,
                OlmErrorView,
            >(OlmErrorView::JsonError(message))
            &&& sender && fields.recipient is None ==> result == Err::<
                EventPartiesView,
                OlmErrorView,
            >(OlmErrorView::EventError(EventErrorView::MissingField("recipient"@)))
            &&& fields.recipient matches Some(Err(message)) ==> sender ==> result == Err::<
                EventPartiesView,
                OlmErrorView,
            >(OlmErrorView::JsonError(message))
            &&& recipient && fields.recipient_keys is None ==> result == Err::<
                EventPartiesView,
                OlmErrorView,
            >(OlmErrorView::EventError(EventErrorView::MissingField("recipient_keys"@)))
            &&& fields.recipient_keys matches Some(Err(message)) ==> recipient ==> result == Err::<
                EventPartiesView,
                OlmErrorView,
            >(OlmErrorView::JsonError(message))
            &&& recipient_keys && fields.keys is None ==> result == Err::<
                EventPartiesView,
                OlmErrorView,
            >(OlmErrorView::EventError(EventErrorView::MissingField("keys"@)))
            &&& fields.keys matches Some(Err(message)) ==> recipient_keys ==> result == Err::<
                EventPartiesView,
                OlmErrorView,
            >(OlmErrorView::JsonError(message))
            &&& keys ==> result is Ok
            &&& result matches Ok(parties) ==> {
                &&& fields.sender == Some(Ok::<Seq<char>, Seq<char>>(parties.sender))
                &&& fields.recipient == Some(Ok::<Seq<char>, Seq<char>>(parties.recipient))
                &&& fields.recipient_keys == Some(
                    Ok::<Map<Seq<char>, Seq<char>>, Seq<char>>(parties.recipient_keys),
                )
                &&& fields.keys == Some(
                    Ok::<Map<Seq<char>, Seq<char>>, Seq<char>>(parties.keys),
                )
            }
        }),
{
}

/// An event with the right fields is taken, whole, with the whole ed25519 key of
/// its sender.
pub proof fn lemma_right_event(
    account: AccountView,
    fields: EventFieldsView,
    ours: Map<Seq<char>, Seq<char>>,
    theirs: Map<Seq<char>, Seq<char>>,
    sender: Seq<char>,
    event: Seq<char>,
)
    requires
        fields.sender == Some(Ok::<Seq<char>, Seq<char>>(sender)),
        fields.recipient == Some(Ok::<Seq<char>, Seq<char>>(account.user_id)),
        fields.recipient_keys == Some(Ok::<Map<Seq<char>, Seq<char>>, Seq<char>>(ours)),
        fields.keys == Some(Ok::<Map<Seq<char>, Seq<char>>, Seq<char>>(theirs)),
        ours.contains_key("ed25519"@),
        ours["ed25519"@] == account.identity_keys.ed25519,
        theirs.contains_key("ed25519"@),
    ensures
        account.accepted_event(sender, fields, Ok(event)) == Ok::<
            (Seq<char>, Seq<char>),
            OlmErrorView,
        >((event, theirs["ed25519"@])),
{
}

/// An event is refused for its fields first, then for its parties, and last for
/// its own text. What is refused for the fields or the parties is refused with
/// the same error whatever the text is.
pub proof fn lemma_refused_event(
    account: AccountView,
    sender: Seq<char>,
    fields: EventFieldsView,
    event: Result<Seq<char>, Seq<char>>,
)
    ensures
        ({
            let result = account.accepted_event(sender, fields, event);
            &&& fields.parties() matches Err(error) ==> result == Err::<
                (Seq<char>, Seq<char>),
                OlmErrorView,
            >(error)
            &&& fields.parties() matches Ok(parties) ==> {
                &&& account.checked_parties(sender, parties) matches Err(error) ==> result == Err::<
                    (Seq<char>, Seq<char>),
                    OlmErrorView,
                >(OlmErrorView::EventError(error))
                &&& account.checked_parties(sender, parties) is Ok ==> (event matches Err(message)
                    ==> result == Err::<(Seq<char>, Seq<char>), OlmErrorView>(
                    OlmErrorView::JsonError(message),
                ))
            }
        }),
{
}

/// The fields of an event are those of its JSON value with their names.
pub proof fn lemma_event_fields(value: Seq<char>)
    ensures
        ({
            let fields = event_fields(value);
            &&& json_field(value, "sender"@) is None ==> fields.sender is None
            &&& json_field(value, "sender"@) matches Some(field) ==> fields.sender == Some(
                json_user_id(field),
            )
            &&& json_field(value, "recipient"@) is None ==> fields.recipient is None
            &&& json_field(value, "recipient"@) matches Some(field) ==> fields.recipient == Some(
                json_user_id(field),
            )
            &&& json_field(value, "recipient_keys"@) is None ==> fields.recipient_keys is None
            &&& json_field(value, "recipient_keys"@) matches Some(field) ==> fields.recipient_keys
                == Some(json_key_table(field))
            &&& json_field(value, "keys"@) is None ==> fields.keys is None
            &&& json_field(value, "keys"@) matches Some(field) ==> fields.keys == Some(
                json_key_table(field),
            )
        }),
{
}

/// A field of a JSON value is the one with the name.
pub proof fn lemma_json_fields(value: Seq<char>, name: Seq<char>)
    ensures
        json_field(value, name) is None ==> json_user_id_field(value, name) is None
            && json_key_table_field(value, name) is None,
        json_field(value, name) matches Some(field) ==> json_user_id_field(value, name) == Some(
            json_user_id(field),
        ) && json_key_table_field(value, name) == Some(json_key_table(field)),
{
}

/// A text that is no JSON is refused with its error; another one is judged by
/// the fields and the event of the value that it holds.
pub proof fn lemma_parsed_text(account: AccountView, sender: Seq<char>, plaintext: Seq<char>)
    ensures
        parsed_json(plaintext) matches Err(message) ==> account.parsed_event(sender, plaintext)
            == Err::<(Seq<char>, Seq<char>), OlmErrorView>(OlmErrorView::JsonError(message)),
        parsed_json(plaintext) matches Ok(value) ==> account.parsed_event(sender, plaintext)
            == account.accepted_event(sender, event_fields(value), json_to_device_event(value)),
{
}

/// A text whose value names the sender of the message, our user and our ed25519
/// key is taken, if its event can be read.
pub proof fn lemma_right_text(
    account: AccountView,
    sender: Seq<char>,
    plaintext: Seq<char>,
    value: Seq<char>,
    from: Seq<char>,
    to: Seq<char>,
    ours: Map<Seq<char>, Seq<char>>,
    theirs: Map<Seq<char>, Seq<char>>,
    event: Seq<char>,
)
    requires
        parsed_json(plaintext) == Ok::<Seq<char>, Seq<char>>(value),
        json_field(value, "sender"@) == Some(from),
        json_user_id(from) == Ok::<Seq<char>, Seq<char>>(sender),
        json_field(value, "recipient"@) == Some(to),
        json_user_id(to) == Ok::<Seq<char>, Seq<char>>(account.user_id),
        json_field(value, "recipient_keys"@) matches Some(field) && json_key_table(field) == Ok::<
            Map<Seq<char>, Seq<char>>,
            Seq<char>,
        >(ours),
        json_field(value, "keys"@) matches Some(field) && json_key_table(field) == Ok::<
            Map<Seq<char>, Seq<char>>,
            Seq<char>,
        >(theirs),
        ours.contains_key("ed25519"@),
        ours["ed25519"@] == account.identity_keys.ed25519,
        theirs.contains_key("ed25519"@),
        json_to_device_event(value) == Ok::<Seq<char>, Seq<char>>(event),
    ensures
        account.parsed_event(sender, plaintext) == Ok::<(Seq<char>, Seq<char>), OlmErrorView>(
            (event, theirs["ed25519"@]),
        ),
{
}

/// The models of parties and fields have all that these hold.
pub proof fn lemma_event_models(
    parties: EventParties,
    fields: EventFields,
    id: UserId,
    table: StringMap<String>,
    text: String,
    error: serde_json::Error,
)
    ensures
        parties@.sender == parties.sender@,
        parties@.recipient == parties.recipient@,
        parties@.recipient_keys.dom() == parties.recipient_keys@.dom(),
        parties@.keys.dom() == parties.keys@.dom(),
        forall|k: Seq<char>| #[trigger]
            parties.recipient_keys@.contains_key(k) ==> parties@.recipient_keys[k]
                == parties.recipient_keys@[k]@,
        forall|k: Seq<char>| #[trigger]
            parties.keys@.contains_key(k) ==> parties@.keys[k] == parties.keys@[k]@,
        fields@.sender == user_id_field(fields.sender),
        fields@.recipient == user_id_field(fields.recipient),
        fields@.recipient_keys == key_table_field(fields.recipient_keys),
        fields@.keys == key_table_field(fields.keys),
        user_id_field(None) is None,
        user_id_field(Some(Ok(id))) == Some(Ok::<Seq<char>, Seq<char>>(id@)),
        user_id_field(Some(Err(error))) == Some(
            Err::<Seq<char>, Seq<char>>(json_error_text(error)),
        ),
        key_table_field(None) is None,
        key_table_field(Some(Err(error))) == Some(
            Err::<Map<Seq<char>, Seq<char>>, Seq<char>>(json_error_text(error)),
        ),
        key_table_field(Some(Ok(table))) matches Some(Ok(texts)) && texts.dom() == table@.dom()
            && forall|k: Seq<char>| #[trigger] table@.contains_key(k) ==> texts[k] == table@[k]@,
        event_text(Ok(text)) == Ok::<Seq<char>, Seq<char>>(text@),
        event_text(Err(error)) == Err::<Seq<char>, Seq<char>>(json_error_text(error)),
{
    lemma_text_table(parties.recipient_keys@);
    lemma_text_table(parties.keys@);
    lemma_text_table(table@);
}

/// The error of malformed fields is that of the first one that is malformed, if
/// none before it is missing.
pub proof fn lemma_first_malformed_field(fields: EventFields)
    ensures
        fields.sender matches Some(Err(error)) ==> fields.json_error() == Some(error),
        fields.sender is None ==> fields.json_error() is None,
        fields.sender matches Some(Ok(_)) ==> {
            &&& fields.recipient matches Some(Err(error)) ==> fields.json_error() == Some(error)
            &&& fields.recipient is None ==> fields.json_error() is None
            &&& fields.recipient matches Some(Ok(_)) ==> {
                &&& fields.recipient_keys matches Some(Err(error)) ==> fields.json_error() == Some(
                    error,
                )
                &&& fields.recipient_keys is None ==> fields.json_error() is None
                &&& fields.recipient_keys matches Some(Ok(_)) ==> {
                    &&& fields.keys matches Some(Err(error)) ==> fields.json_error() == Some(error)
                    &&& fields.keys is None ==> fields.json_error() is None
                    &&& fields.keys matches Some(Ok(_)) ==> fields.json_error() is None
                }
            }
        },
{
}

} // verus!
