//! Layout and compositing of printable disc labels.
//!
//! A label is a fixed-size picture: square cover art at the top, a logo in the
//! bottom-right corner and up to three lines of text in the band below the
//! cover. One or more labels are placed left to right on a white sheet that
//! matches the printer's paper. All positions derive from physical sizes in
//! millimetres and a print resolution in dots per millimetre.

pub mod artwork;
pub mod error;
pub mod font;
pub mod layout;
pub mod raster;
pub mod sheet;
pub mod source;
pub mod text;
pub mod units;
