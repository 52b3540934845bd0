//! Verified core of a potato-boiling service.
//!
//! A single boil session is tracked at a time: a batch of potatoes and the
//! moment boiling started. The session manager serializes starting a boil,
//! querying the time-derived softness of the batch, and collecting the batch
//! once the configured boil duration has elapsed. All clock reads happen at
//! the caller's side; every operation takes the current time as a plain value,
//! so the whole state machine is verified.

pub mod nordo_handlers;
pub mod nordo_models;
pub mod softness;
