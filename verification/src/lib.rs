//! A chat bot's dialogue for putting an item up for sale, with everything it decides proved.
//!
//! The library performs no input or output. Its caller hands it what arrived (`event`,
//! `callback`), carries out what it answers (`dialogue`, `prompt`), reports how the backend
//! replied (`backend`), and lets it keep each conversation's state (`session`, `state`).
//! `laws` states what holds of the dialogue as a whole.

pub mod backend;
pub mod callback;
pub mod dialogue;
pub mod event;
pub mod labels;
pub mod laws;
pub mod listing;
pub mod prompt;
pub mod session;
pub mod state;
pub mod text;
