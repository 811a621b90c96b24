//! A flight server core: a registry of tables, the catalog that lists them,
//! the gateway that turns a ticket into query text, the state machine that
//! relays a query's batches, and the answers of the unsupported methods.
mod text;

pub mod catalog;
pub mod config;
pub mod gateway;
pub mod registry;
pub mod service;
pub mod streamer;
