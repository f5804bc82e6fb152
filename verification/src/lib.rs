//! Per-image conversion logic between ordinary raster formats and JPEG XL.
//!
//! The crate decides and computes; it never touches the file system and never
//! runs the JPEG XL codec itself. A caller reads the input file, hands the
//! bytes over, performs the encoder or decoder call it is asked for, and writes
//! the file it is given back.

pub mod batch;
pub mod color;
pub mod decoding;
pub mod engine;
pub mod error;
pub mod ieee;
pub mod layout;
pub mod naming;
pub mod params;
pub mod png;
pub mod reconstruct;
pub mod source;
