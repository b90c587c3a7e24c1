//! Verified host-side decision logic of the LatentDeck application: embedded
//! viewport ordering, latent capture coordination, realtime runtime contract
//! checks, decoded recording admission and Deck UI catalog validation.

pub mod command_error;
pub mod text;
pub mod viewport;
pub mod d2_capture;
pub mod versions;
pub mod extension_views;
pub mod deck_ui;
pub mod d2_runtime;
pub mod generic_runtime;
pub mod capture_finalizer;
pub mod recording;
pub mod d2_host;
pub mod generic_sessions;
pub mod bundled_decks;
pub mod deck_catalog;
