//! The screens of the first, single-field version of the player interface.
pub mod home;
pub mod register;
