//! A database connectivity core: a backend-polymorphic value model
//! (typed encode/decode), a row abstraction, a uniform streaming
//! query-execution contract, an embedded-engine connection model with a
//! statement worker and a lazy row-materialization protocol, and a
//! wire-protocol argument encoder with a type-identifier resolution cache.

pub mod database;
pub mod decode;
pub mod encode;
pub mod error;
pub mod executor;
pub mod postgres;
pub mod sqlite;
pub mod types;
