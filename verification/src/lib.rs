//! Verified core of a small command surface for container image archives
//! kept as `.tar` files in one flat directory: resolving which archive a
//! request refers to, and deciding each step of the external save, load and
//! remove actions.

pub mod command;
pub mod errors;
pub mod paths;
pub mod resolve;
