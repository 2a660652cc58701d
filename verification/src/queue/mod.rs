//! Background jobs taken off a Redis-backed queue.
pub mod profanity_check;
