//! Stacking surfaces, and holding frames back while the window changes size.

pub mod stack;
pub mod transition;
