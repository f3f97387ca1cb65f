//! Core of a terminal e-mail client: the navigation and composition state
//! of the user interface, the account configuration model, and the pure
//! decisions (paging, header extraction, input classification) that the
//! mail backends and the setup wizard rely on.

pub mod editor;
pub mod config;
pub mod app;
pub mod app_laws;
pub mod keys;
pub mod events;
pub mod mime;
pub mod ui;
pub mod text;
pub mod wizard;
pub mod handlers;
pub mod jmap_steps;
