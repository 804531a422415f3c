//! The errors of the library, with the models that contracts speak of.
use vstd::prelude::*;

use crate::identifiers::UserId;
use crate::json::json_error_text;

verus! {

/// The errors of an Olm account.
#[derive(Clone, Copy, Debug, PartialEq, Eq, Structural)]
pub enum OlmAccountError {
    BadAccountKey,
    BadMessageKeyId,
    InvalidBase64,
    NotEnoughRandom,
    OutputBufferTooSmall,
    Unknown,
}

/// The errors of an Olm session.
#[derive(Clone, Copy, Debug, PartialEq, Eq, Structural)]
pub enum OlmSessionError {
    BadAccountKey,
    BadMessageFormat,
    BadMessageKeyId,
    BadMessageMac,
    BadMessageVersion,
    InvalidBase64,
    NotEnoughRandom,
    OutputBufferTooSmall,
    Unknown,
}

/// The reasons why a signature does not hold.
#[derive(Clone, Copy, Debug, PartialEq, Eq, Structural)]
pub enum SignatureError {
    NotAnObject,
    NoSignatureFound,
    MissingSigningKey,
    VerificationError,
}

/// The error with which the store refuses an operation, by its message.
#[derive(Debug)]
pub struct CryptoStoreError {
    pub message: String,
}

/// The faults of an encrypted event.
#[derive(Debug)]
pub enum EventError {
    /// The event is not encrypted with an algorithm that is supported here.
    UnsupportedAlgorithm,
    /// The type of the Olm message is unknown.
    UnsupportedOlmType,
    /// The event holds no ciphertext for our device.
    MissingCiphertext,
    /// The decrypted event lacks a field.
    MissingField(String),
    /// The decrypted event names another sender or recipient.
    MissmatchedSender,
    /// The decrypted event was meant for another device.
    MissmatchedKeys,
    /// The decrypted event lacks a signing key.
    MissingSigningKey,
}

/// The model of `EventError`.
pub ghost enum EventErrorView {
    UnsupportedAlgorithm,
    UnsupportedOlmType,
    MissingCiphertext,
    MissingField(Seq<char>),
    MissmatchedSender,
    MissmatchedKeys,
    MissingSigningKey,
}

impl View for EventError {
    type V = EventErrorView;

    open spec fn view(&self) -> EventErrorView {
        match self {
            EventError::UnsupportedAlgorithm => EventErrorView::UnsupportedAlgorithm,
            EventError::UnsupportedOlmType => EventErrorView::UnsupportedOlmType,
            EventError::MissingCiphertext => EventErrorView::MissingCiphertext,
            EventError::MissingField(name) => EventErrorView::MissingField(name@),
            EventError::MissmatchedSender => EventErrorView::MissmatchedSender,
            EventError::MissmatchedKeys => EventErrorView::MissmatchedKeys,
            EventError::MissingSigningKey => EventErrorView::MissingSigningKey,
        }
    }
}

/// The ways in which an Olm operation fails.
#[derive(Debug)]
pub enum OlmError {
    /// The event has a fault.
    EventError(EventError),
    /// The decrypted text, or a part of it, is not the JSON that is due.
    JsonError(serde_json::Error),
    /// A session refuses an operation.
    OlmSession(OlmSessionError),
    /// The store refuses an operation.
    Store(CryptoStoreError),
    /// The session with a user and a sender key has to be replaced.
    SessionWedged(UserId, String),
    /// The message from a user and a sender key was decrypted before.
    ReplayedMessage(UserId, String),
}

/// The model of `OlmError`. An error of `serde_json` is known by its message.
pub ghost enum OlmErrorView {
    EventError(EventErrorView),
    JsonError(Seq<char>),
    OlmSession(OlmSessionError),
    Store(Seq<char>),
    SessionWedged(Seq<char>, Seq<char>),
    ReplayedMessage(Seq<char>, Seq<char>),
}

impl View for OlmError {
    type V = OlmErrorView;

    open spec fn view(&self) -> OlmErrorView {
        match self {
            OlmError::EventError(error) => OlmErrorView::EventError(error@),
            OlmError::JsonError(error) => OlmErrorView::JsonError(json_error_text(*error)),
            OlmError::OlmSession(error) => OlmErrorView::OlmSession(*error),
            OlmError::Store(error) => OlmErrorView::Store(error.message@),
            OlmError::SessionWedged(user_id, sender_key) => OlmErrorView::SessionWedged(
                user_id@,
                sender_key@,
            ),
            OlmError::ReplayedMessage(user_id, sender_key) => OlmErrorView::ReplayedMessage(
                user_id@,
                sender_key@,
            ),
        }
    }
}

/// The reasons why no session with a device can be created. Each names the
/// user and the device.
#[derive(Debug)]
pub enum SessionCreationError {
    /// There is no one-time key.
    OneTimeKeyMissing(UserId, String),
    /// The one-time key is not signed.
    OneTimeKeyNotSigned(UserId, String),
    /// The one-time key is of a kind that is not known.
    OneTimeKeyUnknown(UserId, String),
    /// The signature of the one-time key does not hold.
    InvalidSignature(UserId, String, SignatureError),
    /// The device has no curve25519 key.
    DeviceMissingCurveKey(UserId, String),
    /// Olm refuses to create the session.
    OlmError(UserId, String, OlmSessionError),
}

/// The model of `SessionCreationError`.
pub ghost enum SessionCreationErrorView {
    OneTimeKeyMissing(Seq<char>, Seq<char>),
    OneTimeKeyNotSigned(Seq<char>, Seq<char>),
    OneTimeKeyUnknown(Seq<char>, Seq<char>),
    InvalidSignature(Seq<char>, Seq<char>, SignatureError),
    DeviceMissingCurveKey(Seq<char>, Seq<char>),
    OlmError(Seq<char>, Seq<char>, OlmSessionError),
}

impl SessionCreationErrorView {
    /// The user and the device that the error names.
    pub open spec fn device(self) -> (Seq<char>, Seq<char>) {
        match self {
            SessionCreationErrorView::OneTimeKeyMissing(u, d) => (u, d),
            SessionCreationErrorView::OneTimeKeyNotSigned(u, d) => (u, d),
            SessionCreationErrorView::OneTimeKeyUnknown(u, d) => (u, d),
            SessionCreationErrorView::InvalidSignature(u, d, _) => (u, d),
            SessionCreationErrorView::DeviceMissingCurveKey(u, d) => (u, d),
            SessionCreationErrorView::OlmError(u, d, _) => (u, d),
        }
    }
}

impl View for SessionCreationError {
    type V = SessionCreationErrorView;

    open spec fn view(&self) -> SessionCreationErrorView {
        match self {
            SessionCreationError::OneTimeKeyMissing(
                u,
                d,
            ) => SessionCreationErrorView::OneTimeKeyMissing(u@, d@),
            SessionCreationError::OneTimeKeyNotSigned(
                u,
                d,
            ) => SessionCreationErrorView::OneTimeKeyNotSigned(u@, d@),
            SessionCreationError::OneTimeKeyUnknown(
                u,
                d,
            ) => SessionCreationErrorView::OneTimeKeyUnknown(u@, d@),
            SessionCreationError::InvalidSignature(
                u,
                d,
                error,
            ) => SessionCreationErrorView::InvalidSignature(u@, d@, *error),
            SessionCreationError::DeviceMissingCurveKey(
                u,
                d,
            ) => SessionCreationErrorView::DeviceMissingCurveKey(u@, d@),
            SessionCreationError::OlmError(u, d, error) => SessionCreationErrorView::OlmError(
                u@,
                d@,
                *error,
            ),
        }
    }
}

} // verus!
