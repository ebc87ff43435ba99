//! Verified core of a freelance marketplace: the job registry, and the scores and badges
//! of reputation profiles.
//!
//! - [`registry`]: the requests that the job registry answers, on the ledger entries of
//!   [`state`], which hold the records of [`records`].
//! - [`laws`]: what holds of the registry whatever the requests.
//! - [`outcomes`]: what each request comes to, told by its arguments and its answer.
//! - [`profile`] and [`reputation`]: badges, badge metadata and the arithmetic of scores.
//! - [`host`]: the byte strings and lists of the contract host that all of them keep.
pub mod address;
pub mod host;
pub mod laws;
pub mod outcomes;
pub mod profile;
pub mod records;
pub mod registry;
pub mod reputation;
pub mod state;
