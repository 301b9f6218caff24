//! Core of a terminal text editor: a text buffer made of rows of grapheme
//! clusters, a cursor with sticky-column memory, a scrollable viewport, and
//! the Normal/Insert mode state machine that drives edits and movement.

pub mod boundaries;
pub mod cli;
pub mod cluster;
pub mod document;
pub mod editor;
pub mod position;
