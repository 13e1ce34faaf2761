//! Input routing: which consumer gets a key, a click or a piece of text, and
//! in what form.

pub mod dispatch;
pub mod key;
pub mod sink;
