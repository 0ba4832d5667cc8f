//! Channels between one producer and one consumer.

pub mod buffered;
