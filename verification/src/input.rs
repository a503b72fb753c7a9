//! Input: what is held down, what that means, and what it does to the state.

pub mod dispatcher;
pub mod handler;
pub mod key_set;
