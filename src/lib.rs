//! A scratch card drawn as a grid of text glyphs: a coating pattern that
//! reveals a hidden message where the pointer has been dragged.
//!
//! The library holds the card's logic: the grid geometry, the scratch mask,
//! the compositing of mask and message into glyphs, and the pointer state
//! machine. Event wiring and drawing belong to the host.

pub mod geometry;
pub mod mask;
pub mod message;
pub mod compose;
pub mod card;
