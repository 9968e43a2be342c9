//! The games of a profile: listing and watching them across storefronts, installing
//! one into a bottle, and removing it again.

pub mod games;
pub mod install;
pub mod uninstall;
