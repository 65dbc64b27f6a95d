//! The screens of the player interface.
pub mod register;
