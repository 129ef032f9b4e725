//! Mosaic blueprints from photographs: the grid of tesserae, the mappings
//! between image pixels, mosaic millimetres and screen pixels, and the
//! arithmetic around them.

pub mod color;
pub mod config;
pub mod coordinates;
pub mod decimal;
pub mod grid;
pub mod mosaic;
pub mod source_image;
pub mod user_interface;
pub mod user_interface_app;
pub mod utils;
