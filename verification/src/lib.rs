//! A modal text editor core: a flat character buffer with a cursor, plus the
//! mode state machine that routes decoded keyboard intents to buffer edits.
//!
//! The buffer engine (`editor_state`) owns the text as a growable sequence of
//! characters and a single `Cursor`; every operation re-establishes the
//! invariant `cursor.location <= content.len()`. Line boundaries are
//! recomputed on demand by scanning for newline characters, never cached.

pub mod app_state;
pub mod args;
pub mod cursor;
pub mod editor_mode;
pub mod editor_state;
pub mod laws;
pub mod strings;
pub mod text;
