//! Colour schemes in CSS: related colours derived from one primary colour and
//! written out as a block of custom properties.
//!
//! All quantities are whole numbers of thousandths: a hue counts thousandths
//! of a degree, saturation and lightness count thousandths of a percent.

pub mod cli;
pub mod color;
pub mod css;
pub mod hue;
pub mod scheme;
