//! The admin interface.
pub mod edit;
pub mod flags;
pub mod login;
