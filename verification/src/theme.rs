//! Colour themes: the legacy description, the current one, and the way from
//! the first to the second.
//!
//! Colours are never computed with here. A colour is held as the numbers it
//! was written with, and only the surrounding program turns it into the
//! colour type of its user-interface toolkit.

pub mod color;
pub mod legacy;
pub mod model;
pub mod convert;
pub mod printer;
pub mod palette;
pub mod rose_pine;
pub mod assets;
