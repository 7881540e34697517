//! A verified core for a GraphQL view over a Secure Scuttlebutt log.

pub mod cursor;
pub mod db;
pub mod graphql;
pub mod json;
pub mod ssb_message;
pub mod text;
