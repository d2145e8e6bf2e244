//! Verified core of a clipboard synchronizer.
//!
//! A client watches its local clipboard, pushes genuine changes to a relay,
//! and applies changes the relay fans out to the other clients.  The hard part
//! is loop prevention: a client's own change coming back from the relay must
//! not be re-detected as new and re-sent forever.  This crate holds the logic
//! that decides those questions — the content fingerprinter, the change/echo
//! classifier, the client sync-loop and reconnect decisions, the relay's
//! state and registry, and the settings state machine — each with a proved
//! contract.  Platform clipboard access, networking and window drawing stay
//! outside, handing plain values in and taking plain values back.

pub mod backend;
pub mod chars;
pub mod classifier;
pub mod codec;
pub mod fingerprint;
pub mod gui;
pub mod image_info;
pub mod lifecycle;
pub mod relay;
pub mod snapshot;
pub mod sync;
