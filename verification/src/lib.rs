//! An append-only ledger of lifecycle events for physical equipment.
//!
//! Every item owns an ordered history of typed events (manufacture, entry into
//! service, inspection, loan, return, retirement, loss). The ledger accepts a
//! new event only when it is a legal successor of the item's history, and it
//! never rewrites what it has accepted.
//!
//! - [`event`] holds the closed set of event kinds and the transition table.
//! - [`time`] holds the instants that order an item's history.
//! - [`ledger`] holds the event record, the rejection taxonomy and the
//!   validation rules of the writer.
//! - [`history`] is the mathematical model: what a history is, what the
//!   queries return on it, and which histories are valid.
//! - [`store`] holds the in-memory ledger: the store and its writer.
//! - [`laws`] states and proves what holds of every history the writer produces.
//!
//! Around the ledger stand the plain records of its collaborators:
//! [`models`] (items, tags, users), [`api`] (what the operations take and
//! give), [`auth`] (claims, permissions and login), [`password`] (hashing)
//! and [`assets`] (static files).

pub mod api;
pub mod assets;
pub mod auth;
pub mod event;
pub mod history;
pub mod laws;
pub mod ledger;
pub mod models;
pub mod password;
pub mod store;
pub mod time;
