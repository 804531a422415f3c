//! What comes of a decryption, from its first step to its last.
use vstd::prelude::*;

use crate::account::AccountView;
use crate::decryption::{
    after_check, after_load, after_match, after_save, failed, no_session_left, try_session, DecryptionView,
    OlmDecryptionInfoView, ReceivedMessageView,
};
use crate::error::{OlmErrorView, OlmSessionError};
use crate::session::{OlmMessageView, SessionTypeView, SessionView};

verus! {

/// What the store and the sessions do with one message.
pub ghost struct Surroundings {
    /// How many sessions the store has.
    pub sessions: Result<Option<nat>, Seq<char>>,
    /// Whether the message was encrypted for the session at an index.
    pub matches: spec_fn(int) -> Result<bool, OlmSessionError>,
    /// What the session at an index makes of the message.
    pub decrypts: spec_fn(int) -> Result<(SessionView, Seq<char>), OlmSessionError>,
    /// The ID of the session that is created from the message.
    pub creates: Result<Seq<char>, OlmSessionError>,
    /// The time of the creation.
    pub now: std::time::Instant,
    /// What a new session makes of the message.
    pub decrypts_new: spec_fn(SessionView) -> Result<(SessionView, Seq<char>), OlmSessionError>,
    /// Whether the store takes changes.
    pub saves: Result<(), Seq<char>>,
    /// Whether the store knows the hash of the message.
    pub known: Result<bool, Seq<char>>,
}

impl Surroundings {
    /// The number of sessions that can be tried.
    pub open spec fn count(self) -> nat {
        match self.sessions {
            Ok(Some(count)) => count,
            _ => 0,
        }
    }

    /// Whether the session at an index ends the search: a pre-key message is
    /// for it or cannot be matched, another message is decrypted by it.
    pub open spec fn decides(self, message: OlmMessageView, index: int) -> bool {
        match message {
            OlmMessageView::PreKey(_) => (self.matches)(index) != Ok::<bool, OlmSessionError>(false),
            OlmMessageView::Message(_) => (self.decrypts)(index) is Ok,
        }
    }

    /// Whether the session at an index is the first that ends the search.
    pub open spec fn decides_first(self, message: OlmMessageView, index: int) -> bool {
        &&& 0 <= index < self.count()
        &&& self.decides(message, index)
        &&& forall|j: int| 0 <= j < index ==> !#[trigger] self.decides(message, j)
    }
}

/// The step that follows a state.
pub open spec fn next(
    account: AccountView,
    state: DecryptionView,
    around: Surroundings,
) -> DecryptionView {
    match state {
        DecryptionView::LoadSessions(message) => after_load(
            message,
            match around.sessions {
                Ok(Some(count)) => Ok(Some(count as int)),
                Ok(None) => Ok(None),
                Err(error) => Err(error),
            },
        ),
        DecryptionView::MatchSession(s) => after_match(
            s.message,
            s.index,
            s.count,
            (around.matches)(s.index),
        ),
        DecryptionView::DecryptSession(s) => account.after_decrypt(
            s.message,
            s.index,
            s.count,
            (around.decrypts)(s.index),
        ),
        DecryptionView::CreateSession(message) => account.after_create(
            message,
            around.creates,
            around.now,
        ),
        DecryptionView::DecryptNew(s) => account.after_decrypt_new(
            s.message,
            (around.decrypts_new)(s.session),
        ),
        DecryptionView::SaveSession(s) => after_save(s.error, around.saves),
        DecryptionView::CheckReplay(message) => after_check(message, around.known),
        DecryptionView::Finished(result) => DecryptionView::Finished(result),
    }
}

/// The state after a number of steps.
pub open spec fn run(
    account: AccountView,
    state: DecryptionView,
    around: Surroundings,
    steps: nat,
) -> DecryptionView
    decreases steps,
{
    if steps == 0 {
        state
    } else {
        run(account, next(account, state, around), around, (steps - 1) as nat)
    }
}

/// What comes of a message that could not be decrypted: it was replayed if its
/// hash is known, and the session is wedged if it is not.
pub open spec fn undecryptable(message: ReceivedMessageView, around: Surroundings) -> Result<
    OlmDecryptionInfoView,
    OlmErrorView,
> {
    match around.known {
        Ok(true) => Err(OlmErrorView::ReplayedMessage(message.sender, message.sender_key)),
        Ok(false) => Err(OlmErrorView::SessionWedged(message.sender, message.sender_key)),
        Err(error) => Err(OlmErrorView::Store(error)),
    }
}

/// What comes of a text that a session decrypted.
pub open spec fn decrypted(
    account: AccountView,
    message: ReceivedMessageView,
    session: SessionTypeView,
    plaintext: Seq<char>,
    around: Surroundings,
) -> Result<OlmDecryptionInfoView, OlmErrorView> {
    match account.parsed_event(message.sender, plaintext) {
        Ok((event, signing_key)) => Ok(
            AccountView::decryption_info(message, session, event, signing_key),
        ),
        Err(error) => match around.saves {
            Ok(_) => Err(error),
            Err(e) => Err(OlmErrorView::Store(e)),
        },
    }
}

/// What comes of a message for which the session at an index ends the search.
pub open spec fn with_session(
    account: AccountView,
    message: ReceivedMessageView,
    index: int,
    around: Surroundings,
) -> Result<OlmDecryptionInfoView, OlmErrorView> {
    match (message.message, (around.matches)(index), (around.decrypts)(index)) {
        (OlmMessageView::PreKey(_), Err(error), _) => Err(OlmErrorView::OlmSession(error)),
        (_, _, Ok((session, plaintext))) => decrypted(
            account,
            message,
            SessionTypeView::Existing(session),
            plaintext,
            around,
        ),
        _ => undecryptable(message, around),
    }
}

/// What comes of a message for which no session ends the search.
pub open spec fn without_session(
    account: AccountView,
    message: ReceivedMessageView,
    around: Surroundings,
) -> Result<OlmDecryptionInfoView, OlmErrorView> {
    match (message.message, around.creates) {
        (OlmMessageView::PreKey(_), Ok(session_id)) => {
            let session = account.session(message.sender_key, session_id, around.now);
            match (around.decrypts_new)(session) {
                Ok((session, plaintext)) => decrypted(
                    account,
                    message,
                    SessionTypeView::New(session),
                    plaintext,
                    around,
                ),
                Err(error) => Err(OlmErrorView::OlmSession(error)),
            }
        },
        _ => undecryptable(message, around),
    }
}

/// What comes of a decryption.
pub open spec fn outcome(
    account: AccountView,
    message: ReceivedMessageView,
    around: Surroundings,
) -> Result<OlmDecryptionInfoView, OlmErrorView> {
    match around.sessions {
        Err(error) => Err(OlmErrorView::Store(error)),
        Ok(_) => if exists|i: int| around.decides_first(message.message, i) {
            with_session(
                account,
                message,
                choose|i: int| around.decides_first(message.message, i),
                around,
            )
        } else {
            without_session(account, message, around)
        },
    }
}

proof fn lemma_finished(
    account: AccountView,
    result: Result<OlmDecryptionInfoView, OlmErrorView>,
    around: Surroundings,
    steps: nat,
)
    ensures
        run(account, DecryptionView::Finished(result), around, steps) == DecryptionView::Finished(
            result,
        ),
    decreases steps,
{
    if steps > 0 {
        lemma_finished(account, result, around, (steps - 1) as nat);
    }
}

/// A message that could not be decrypted needs one more step.
proof fn lemma_check(
    account: AccountView,
    message: ReceivedMessageView,
    around: Surroundings,
    steps: nat,
)
    requires
        steps >= 1,
    ensures
        run(account, DecryptionView::CheckReplay(message), around, steps)
            == DecryptionView::Finished(undecryptable(message, around)),
{
    lemma_finished(account, undecryptable(message, around), around, (steps - 1) as nat);
}

/// A text that a session decrypted needs at most one more step.
proof fn lemma_plaintext(
    account: AccountView,
    message: ReceivedMessageView,
    session: SessionTypeView,
    plaintext: Seq<char>,
    around: Surroundings,
    steps: nat,
)
    requires
        steps >= 1,
    ensures
        run(account, account.after_plaintext(message, session, plaintext), around, steps)
            == DecryptionView::Finished(decrypted(account, message, session, plaintext, around)),
{
    let result = decrypted(account, message, session, plaintext, around);
    lemma_finished(account, result, around, steps);
    lemma_finished(account, result, around, (steps - 1) as nat);
}

/// A message for which no session ends the search needs at most three more
/// steps.
proof fn lemma_without_session(
    account: AccountView,
    message: ReceivedMessageView,
    around: Surroundings,
    steps: nat,
)
    requires
        steps >= 3,
    ensures
        run(account, no_session_left(message), around, steps) == DecryptionView::Finished(
            without_session(account, message, around),
        ),
{
    match message.message {
        OlmMessageView::Message(_) => {
            lemma_check(account, message, around, steps);
        },
        OlmMessageView::PreKey(_) => {
            let state = account.after_create(message, around.creates, around.now);
            assert(run(account, no_session_left(message), around, steps) == run(
                account,
                state,
                around,
                (steps - 1) as nat,
            ));
            match around.creates {
                Err(_) => {
                    lemma_check(account, message, around, (steps - 1) as nat);
                },
                Ok(session_id) => {
                    let session = account.session(message.sender_key, session_id, around.now);
                    let state2 = account.after_decrypt_new(
                        message,
                        (around.decrypts_new)(session),
                    );
                    assert(run(account, state, around, (steps - 1) as nat) == run(
                        account,
                        state2,
                        around,
                        (steps - 2) as nat,
                    ));
                    match (around.decrypts_new)(session) {
                        Ok((session, plaintext)) => {
                            lemma_plaintext(
                                account,
                                message,
                                SessionTypeView::New(session),
                                plaintext,
                                around,
                                (steps - 2) as nat,
                            );
                        },
                        Err(error) => {
                            lemma_finished(
                                account,
                                Err(OlmErrorView::OlmSession(error)),
                                around,
                                (steps - 2) as nat,
                            );
                        },
                    }
                },
            }
        },
    }
}

/// A message for which a session ends the search needs at most three more
/// steps.
proof fn lemma_with_session(
    account: AccountView,
    message: ReceivedMessageView,
    index: int,
    around: Surroundings,
    steps: nat,
)
    requires
        steps >= 3,
        around.decides_first(message.message, index),
    ensures
        run(account, try_session(message, index, around.count() as int), around, steps)
            == DecryptionView::Finished(with_session(account, message, index, around)),
{
    let count = around.count() as int;
    let state = try_session(message, index, count);
    let state1 = next(account, state, around);
    assert(run(account, state, around, steps) == run(account, state1, around, (steps - 1) as nat));
    match message.message {
        OlmMessageView::Message(_) => {
            let (session, plaintext) = (around.decrypts)(index)->Ok_0;
            lemma_plaintext(
                account,
                message,
                SessionTypeView::Existing(session),
                plaintext,
                around,
                (steps - 1) as nat,
            );
        },
        OlmMessageView::PreKey(_) => match (around.matches)(index) {
            Err(error) => {
                lemma_finished(
                    account,
                    Err(OlmErrorView::OlmSession(error)),
                    around,
                    (steps - 1) as nat,
                );
            },
            Ok(_) => {
                let state2 = next(account, state1, around);
                assert(run(account, state1, around, (steps - 1) as nat) == run(
                    account,
                    state2,
                    around,
                    (steps - 2) as nat,
                ));
                match (around.decrypts)(index) {
                    Ok((session, plaintext)) => {
                        lemma_plaintext(
                            account,
                            message,
                            SessionTypeView::Existing(session),
                            plaintext,
                            around,
                            (steps - 2) as nat,
                        );
                    },
                    Err(_) => {
                        lemma_check(account, message, around, (steps - 2) as nat);
                    },
                }
            },
        },
    }
}

/// The search among the sessions from an index on.
proof fn lemma_search(
    account: AccountView,
    message: ReceivedMessageView,
    index: int,
    around: Surroundings,
    steps: nat,
)
    requires
        around.sessions is Ok,
        0 <= index <= around.count(),
        steps >= around.count() - index + 3,
        forall|j: int| 0 <= j < index ==> !#[trigger] around.decides(message.message, j),
    ensures
        run(account, try_session(message, index, around.count() as int), around, steps)
            == DecryptionView::Finished(outcome(account, message, around)),
    decreases around.count() - index,
{
    let count = around.count() as int;
    if index == count {
        assert forall|i: int| !around.decides_first(message.message, i) by {
            if around.decides_first(message.message, i) {
                assert(!around.decides(message.message, i));
            }
        }
        lemma_without_session(account, message, around, steps);
    } else if around.decides(message.message, index) {
        assert(around.decides_first(message.message, index));
        let chosen = choose|i: int| around.decides_first(message.message, i);
        assert(chosen == index) by {
            if chosen < index {
                assert(!around.decides(message.message, chosen));
            } else if index < chosen {
                assert(!around.decides(message.message, index));
            }
        }
        lemma_with_session(account, message, index, around, steps);
    } else {
        let state = try_session(message, index, count);
        assert(next(account, state, around) == try_session(message, index + 1, count));
        assert(run(account, state, around, steps) == run(
            account,
            try_session(message, index + 1, count),
            around,
            (steps - 1) as nat,
        ));
        lemma_search(account, message, index + 1, around, (steps - 1) as nat);
    }
}

/// Whatever the store and the sessions do, a decryption ends, and with the
/// outcome that is due: the first session that ends the search decides, a new
/// session is tried only where none does, and a message that cannot be
/// decrypted is a replayed one exactly if its hash is known.
pub proof fn lemma_decryption(
    account: AccountView,
    message: ReceivedMessageView,
    around: Surroundings,
    steps: nat,
)
    requires
        steps >= around.count() + 4,
    ensures
        run(account, DecryptionView::LoadSessions(message), around, steps)
            == DecryptionView::Finished(outcome(account, message, around)),
{
    let state = next(account, DecryptionView::LoadSessions(message), around);
    assert(run(account, DecryptionView::LoadSessions(message), around, steps) == run(
        account,
        state,
        around,
        (steps - 1) as nat,
    ));
    match around.sessions {
        Err(error) => {
            lemma_finished(account, Err(OlmErrorView::Store(error)), around, (steps - 1) as nat);
        },
        Ok(_) => {
            if around.count() == 0 {
                assert(state == try_session(message, 0, 0));
            }
            lemma_search(account, message, 0, around, (steps - 1) as nat);
        },
    }
}

/// A message is reported as replayed only if its hash is known, and a session
/// as wedged only if it is not. Both name the sender and the sender key.
pub proof fn lemma_replayed_or_wedged(
    account: AccountView,
    message: ReceivedMessageView,
    around: Surroundings,
)
    ensures
        outcome(account, message, around) matches Err(OlmErrorView::ReplayedMessage(user, key))
            ==> around.known == Ok::<bool, Seq<char>>(true) && user == message.sender && key
            == message.sender_key,
        outcome(account, message, around) matches Err(OlmErrorView::SessionWedged(user, key))
            ==> around.known == Ok::<bool, Seq<char>>(false) && user == message.sender && key
            == message.sender_key,
{
}

/// A new session decrypts a message only if it is a pre-key message that was
/// encrypted for none of the sessions that were there before.
pub proof fn lemma_new_session(
    account: AccountView,
    message: ReceivedMessageView,
    around: Surroundings,
)
    requires
        outcome(account, message, around) matches Ok(info) && info.session is New,
    ensures
        message.message is PreKey,
        around.creates is Ok,
        forall|i: int|
            0 <= i < around.count() ==> #[trigger] (around.matches)(i) == Ok::<
                bool,
                OlmSessionError,
            >(false),
{
    assert(!exists|i: int| around.decides_first(message.message, i));
    assert forall|i: int| 0 <= i < around.count() implies #[trigger] (around.matches)(i) == Ok::<
        bool,
        OlmSessionError,
    >(false) by {
        if around.decides(message.message, i) {
            lemma_first_exists(message.message, around, i);
        }
    }
}

/// Where some session ends the search, one is the first that does.
proof fn lemma_first_exists(message: OlmMessageView, around: Surroundings, index: int)
    requires
        0 <= index < around.count(),
        around.decides(message, index),
    ensures
        exists|i: int| around.decides_first(message, i),
    decreases index,
{
    if exists|j: int| 0 <= j < index && #[trigger] around.decides(message, j) {
        let j = choose|j: int| 0 <= j < index && #[trigger] around.decides(message, j);
        lemma_first_exists(message, around, j);
    } else {
        assert(around.decides_first(message, index));
    }
}

/// What comes of a decryption that succeeds belongs to the message: it carries
/// the hash and the sender key of the message, and the event was checked to be
/// from its sender.
pub proof fn lemma_info_of_message(
    account: AccountView,
    message: ReceivedMessageView,
    around: Surroundings,
)
    requires
        outcome(account, message, around) is Ok,
    ensures
        ({
            let info = outcome(account, message, around)->Ok_0;
            &&& info.message_hash == message.message_hash
            &&& info.sender_key == message.sender_key
            &&& exists|plaintext: Seq<char>| #[trigger]
                account.parsed_event(message.sender, plaintext) == Ok::<
                    (Seq<char>, Seq<char>),
                    OlmErrorView,
                >((info.event, info.signing_key))
        }),
{
}

/// Changes are stored only where a session decrypted the message and the event
/// in it was refused. They hold that session, and the account exactly if the
/// session is new. Decryption then fails with the reason of the refusal, unless
/// the store fails.
pub proof fn lemma_changes_are_saved(
    account: AccountView,
    state: DecryptionView,
    around: Surroundings,
)
    requires
        next(account, state, around) is SaveSession,
    ensures
        ({
            let refused = next(account, state, around)->SaveSession_0;
            let (message, (session, plaintext)) = match state {
                DecryptionView::DecryptSession(s) => (
                    s.message,
                    (around.decrypts)(s.index)->Ok_0,
                ),
                DecryptionView::DecryptNew(s) => (
                    s.message,
                    (around.decrypts_new)(s.session)->Ok_0,
                ),
                _ => arbitrary(),
            };
            &&& state is DecryptSession || state is DecryptNew
            &&& account.parsed_event(message.sender, plaintext) == Err::<
                (Seq<char>, Seq<char>),
                OlmErrorView,
            >(refused.error)
            &&& refused.changes.sessions == seq![session]
            &&& refused.changes.account == if state is DecryptNew {
                Some(account)
            } else {
                None
            }
            &&& next(account, next(account, state, around), around) == match around.saves {
                Ok(_) => failed(refused.error),
                Err(error) => failed(OlmErrorView::Store(error)),
            }
        }),
{
}

} // verus!
