//! A minimal record-keeping backend for household ledger items.
//!
//! The crate provides the storage abstraction ([`repositories::ItemRepository`])
//! together with a concurrency-safe in-memory backend ([`store`]), the
//! request-validation gate ([`handlers::ValidatedJson`]) and the translation
//! of storage and validation outcomes into transport-level status codes
//! ([`handlers`]).

pub mod handlers;
pub mod repositories;
pub mod store;
