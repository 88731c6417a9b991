//! The parts of the interface: the search field, the sign-in form, the
//! signed-in user and the messages to the hosting page.

pub mod auth;
pub mod hcaptcha;
pub mod javascript_interop;
pub mod search;
pub mod supabase;
pub mod user;
