//! Core of a terminal chat client that streams a text-generation service's
//! reply into a scrollable transcript: the transcript store, the viewport
//! controller, the decoding of the response stream and the layout of the
//! transcript into display lines.
pub mod app;
pub mod config;
pub mod ingest;
pub mod layout;
pub mod transcript;
