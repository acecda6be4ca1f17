//! A mock relayer: a stand-in for a service that turns inbound emails into
//! proofs of their content, for client tests that need its requests and
//! replies but neither real proving nor real mail.
//!
//! A submission is taken in under a fresh id and waits as a job. Working the
//! job off reads a command from the subject line, hashes the content, builds
//! the data of the command with a mock proof beside them, and stores both the
//! proof and the outcome. Clients poll the record of a submission by its id
//! and fetch the proof by its hash.
//!
//! - `models`: the data.
//! - `text`, `encoding`: characters, words and hexadecimal numerals.
//! - `commands`, `extraction`: what is read out of an email.
//! - `hashing`, `ids`, `clock`, `mock_proofs`: hashes, identifiers, the time
//!   and the stand-in proofs.
//! - `store`, `state`: the two stores, the events that change them and what
//!   holds of every history.
//! - `handlers`: the operations.

pub mod clock;
pub mod commands;
pub mod encoding;
pub mod extraction;
pub mod handlers;
pub mod hashing;
pub mod ids;
pub mod mock_proofs;
pub mod models;
pub mod state;
pub mod store;
pub mod text;
