//! A ledger transaction engine over an append-only, bitemporal document store.
//!
//! The engine never talks to the store itself. Each operation is a small state
//! machine: it names the next store request, and is resumed with the store's
//! reply until it finishes with an account, a history, a list of operations or
//! an error. Every decision on that way is verified.
//!
//! - [`entity`], [`document`] and [`codec`]: accounts, audit records, and the
//!   documents that hold them.
//! - [`store`]: the requests to the store and its replies.
//! - [`state`], [`model`] and [`engine`]: the operations, step by step.
//! - [`history`] and [`timeline`]: the versions of an account, and its
//!   operations in the order of their commit.
//! - [`store_model`], [`atomicity`] and [`balance`]: what holds of the engine
//!   as a whole.
//! - [`gateway`]: requests as a gateway reads them from the wire.
pub mod error;
pub mod ident;
pub mod document;
pub mod entity;
pub mod codec;
pub mod clock;
pub mod query;
pub mod store;
pub mod history;
pub mod timeline;
pub mod state;
pub mod model;
pub mod engine;
pub mod store_model;
pub mod atomicity;
pub mod balance;
pub mod gateway;
