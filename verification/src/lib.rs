//! Exercising a Kafka topic by hand: what one producer run and one consumer
//! run decide, from the command line's arguments to the requests made of
//! the client, with the proofs of what those decisions guarantee.

pub mod args;
pub mod bindings;
pub mod config;
pub mod consumer;
pub mod header;
pub mod message;
pub mod producer;
pub mod record;
pub mod text;
