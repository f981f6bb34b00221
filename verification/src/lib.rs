//! Interactive branch checkout, as a library of decisions.
//!
//! A run is a short conversation with two collaborators: a git repository and
//! a terminal prompt. This crate holds every decision of that conversation
//! (which branches to list, what to offer, how to read the answer, where HEAD
//! goes, how a failure ends the run) and none of its effects. A driver performs
//! the effects and reports back what happened.
//!
//! - [`options`]: the command line and its one switch.
//! - [`branch`]: branch records, and the enumerator that picks them out of a
//!   listing.
//! - [`select`]: the prompt, and how its answer is read.
//! - [`checkout`]: what a name resolved to, and where HEAD goes.
//! - [`exit`]: failures, diagnostics and exit statuses.
//! - [`session`]: the conversation itself, step by step.
//! - [`laws`]: what holds of every run.

pub mod branch;
pub mod checkout;
pub mod exit;
pub mod laws;
pub mod options;
pub mod select;
pub mod session;
