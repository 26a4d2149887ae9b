//! A verified core for a terminal note-taking program: the markup preview
//! transducer (an event stream rendered into styled, prefix-decorated lines
//! for a fixed-width viewport) together with the plain state logic around it
//! (commands, note-list bookkeeping, storage paths).

pub mod strutil;
pub mod style;
pub mod text;
pub mod event;
pub mod highlight;
pub mod writer;
pub mod laws;
pub mod commands;
pub mod storage;
pub mod theme;
pub mod notes;

