//! The account of an end-to-end encryption device.
//!
//! An account decides which keys are uploaded, what is signed, which sessions
//! are created and how a message that comes in is decrypted. The private keys
//! and the ratchets of the sessions are not part of it: what they compute is
//! handed in, and so is what a store answers.
pub mod account;
pub mod account_laws;
pub mod decrypted_event;
pub mod decryption;
pub mod decryption_laws;
pub mod error;
pub mod event_laws;
pub mod group_session;
pub mod identifiers;
pub mod json;
pub mod key_laws;
pub mod keys;
pub mod session;
pub mod session_creation;
pub mod session_laws;
pub mod signing;
pub mod step_laws;
pub mod string_map;
pub mod utilities;
