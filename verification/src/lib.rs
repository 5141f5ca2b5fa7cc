//! Submission of a solution to the Kattis judge and tracking of its
//! judgement, as verified state machines around an unverified transport.
//!
//! The library sends nothing and prints nothing. A driver performs what the
//! state machines ask for (a question to the person, a login, an upload, a
//! request for the status document, a pause) and hands back what came of it.
//!
//! - [`lifecycle`]: one submission from the confirmation to the verdict.
//! - [`poller`]: the poll of the judgement, tick by tick.
//! - [`judgement`] and [`outcome`]: what a status document says, and the
//!   outcome of each test in it.
//! - [`upload`]: the upload form, and what the answer to an upload means.
//! - [`session`]: what the answer to a login means.
//! - [`document`], [`pattern`] and [`text`]: the document layer, the pattern
//!   engine and the text primitives that the parsing rests on.
//! - [`transport`]: the plain values exchanged with the transport.

pub mod document;
pub mod judgement;
pub mod lifecycle;
pub mod model;
pub mod outcome;
pub mod pattern;
pub mod poller;
pub mod session;
pub mod text;
pub mod transport;
pub mod upload;
