//! Interface state: what the screen shows and what the user is doing.

pub mod state;
pub mod uiux;
