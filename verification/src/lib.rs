//! Decisions of the Bottles server, verified.

pub mod accounts;
pub mod bottle;
pub mod ids;
pub mod json;
pub mod launch;
pub mod library;
pub mod machine;
pub mod path;
pub mod prefix;
pub mod profile;
pub mod proxy;
pub mod registry;
pub mod relay;
pub mod status;
pub mod steam;
pub mod text;
