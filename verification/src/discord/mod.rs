//! Discord rich presence: what to show, how to say it on the wire, and when.

pub mod projection;
pub mod activity;
pub mod ipc;
pub mod socket;
pub mod sink;
