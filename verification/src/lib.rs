//! Core of a transparent intercepting IMAP proxy: service descriptors, the
//! event routing between the client-facing and the server-facing protocol
//! state machines, capability filtering, rejection rewriting and fragment
//! tracing.

pub mod capability;
pub mod config;
pub mod conversation;
pub mod fragment;
pub mod message;
pub mod proxy;
pub mod route;
pub mod text;
