//! A small guest/item service library whose core is a durable, pull-based
//! message-stream consumer with bounded concurrent processing, paired with a
//! periodic publisher into the same stream.
//!
//! The stream-facing modules model the broker interaction as explicit state:
//! [`broker`] holds an exact model of stream and consumer provisioning,
//! publishing and pulling; [`consumer`] is the consumer loop's decision
//! machine; [`gate`] bounds concurrent processing; [`processor`] accounts
//! for acknowledgment outcomes; [`publisher`] builds the periodic
//! envelopes. The surrounding domain (items, guests, validation, error
//! mapping) is verified directly.

pub mod api_error;
pub mod broker;
mod clock;
pub mod consumer;
pub mod environment;
pub mod gate;
pub mod guest;
pub mod guest_api;
pub mod guest_mapper;
pub mod guest_store;
pub mod guest_validation;
pub mod item;
pub mod item_api;
pub mod item_store;
pub mod processor;
pub mod publisher;
pub mod repository;
pub mod stream;
pub mod subject;
pub mod text;
pub mod validation;
