//! The shell overlay: the connect screen and the actor that paints it.

pub mod connection;
pub mod focus;
pub mod messages;
pub mod edit;
pub mod actor;
