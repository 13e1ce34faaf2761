//! The popup menu that the client draws itself.

pub mod engine;
