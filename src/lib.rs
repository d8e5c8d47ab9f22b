//! Lazy flattening of a cursor whose items are themselves cursors.
//!
//! A [`Cursor`] yields elements one at a time from its front; a [`BackCursor`]
//! can also yield them from its back. [`Flatten`] owns an outer cursor and at
//! most two live inner cursors, and yields every element of every inner cursor
//! in order, pulling from the outer cursor only when it needs another inner one.
use vstd::prelude::*;

pub mod cursor;
pub mod flatten;
pub mod laws;
pub mod sources;

pub use cursor::{collect, collect_rev, count, BackCursor, Cursor, VecCursor};
pub use flatten::{flatten, Flatten, IteratorExt};
pub use sources::{Prefixes, Span};
