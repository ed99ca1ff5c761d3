//! The state behind a small two-page desktop window: a theme, the page on
//! show and the text typed into the login form, together with the rule by
//! which each message from the window changes them.
//!
//! Nothing here draws. The window's event loop owns one [`state::RustUI`],
//! hands every message to [`state::RustUI::update`] and asks
//! [`state::RustUI::render`] what to put on the screen.

pub mod laws;
pub mod login;
pub mod message;
pub mod page;
pub mod state;
mod text;
pub mod theme;

