//! Cursor animation for a text editor: where each cursor is drawn while it glides
//! from its old place to its new one, the trail it leaves, and the bookkeeping of
//! one animation per cursor across frames.

pub mod geometry;
pub mod timing;
pub mod settings;
pub mod animation;
pub mod trail;
pub mod viewport;
pub mod registry;
pub mod laws;
