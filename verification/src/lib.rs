//! The image store of a fleet of e-paper displays.
//!
//! Each display is known by its hardware address, and its image is kept in
//! one directory as up to three files that are named after the address: the
//! drawing as an SVG document of the display's size, the preview rendered
//! from it as a PNG file, and a bitmap. This library holds what the store
//! decides: how an address is read and written, how the files are named,
//! which displays a listing of the directory shows, when a removal has
//! succeeded, and what is written for a drawing. It reads and writes no
//! file, and it neither parses nor paints a drawing: the caller does, and
//! tells the library what came of it.

pub mod asset;
pub mod config;
pub mod directory;
pub mod document;
pub mod error;
pub mod hex;
pub mod image_handler;
pub mod mac;
pub mod png_header;
pub mod raster;
