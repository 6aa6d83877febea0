//! Browsing engine of a terminal image viewer: the key table, the browse
//! state, the decisions of the input loop and of the background worker, and
//! the fitting and rasterizing of pictures into coloured terminal cells.

pub mod app;
pub mod image;
pub mod inputs;
pub mod io;
pub mod utils;
