//! Recolours text for terminal display.
//!
//! Printable characters are wrapped in colour escape sequences chosen from a
//! palette by a cyclically advancing seed, while escape sequences already
//! present in the text are recognised and passed through untouched.

pub mod cat;
pub mod chars;
pub mod color;
pub mod contrast;
pub mod escape;
pub mod laws;
