//! Request handling logic for a small HTTP API over two tables kept in a
//! Scylla cluster (`items` and `custom_texts`): routing, request options,
//! execution-profile settings, the decisions of each endpoint, paging-state
//! text, TLS root loading and the start-up sequence.

pub mod custom;
pub mod dispatch;
pub mod handlers;
pub mod models;
pub mod paging_state;
pub mod profile;
pub mod request;
pub mod routing;
pub mod setup;
pub mod tls;
pub mod uuid_text;
