//! A terminal digital clock: time-of-day symbols drawn as large 5x3
//! block glyphs, with an integer zoom factor, optional timezone status
//! line, and a plan for redrawing a frame in place.

pub mod clock;
pub mod glyphs;
pub mod render;
pub mod ticker;
pub mod tz;
