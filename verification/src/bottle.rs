//! Bottles: the answers to calls about them, between the core library's view of a
//! bottle and the messages of the protocol.

pub mod calls;
pub mod convert;
pub mod message;
pub mod model;
