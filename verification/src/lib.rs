//! The screens of a small SSH capture-the-flag server: what each key press does to a
//! screen, when a screen hands over to another one, and what the screens show.
pub mod admin;
pub mod conf;
pub mod database;
pub mod keys;
pub mod screen;
pub mod text;
pub mod users;
pub mod screens;
pub mod client;
