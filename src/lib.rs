//! A relay that authenticates webhook deliveries by their keyed signature,
//! checks the shape of the event they carry, resolves where to send them and
//! picks the headers that travel along.

pub mod args;
pub mod datetime_agnostic;
pub mod destination;
pub mod error;
pub mod forward;
pub mod github_types;
pub mod signature;
pub mod text;
pub mod webhook;
