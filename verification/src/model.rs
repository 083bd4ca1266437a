//! The registry's own records, as opposed to the shapes that travel on the wire.

pub mod message;
pub mod token;
