//! A reducer that keeps a filtered, de-duplicated view over a library of items
//! in step with the library and with the category the user has selected.

pub mod effects;
pub mod laws;
pub mod library;
pub mod library_filtered;
pub mod msg;
pub mod reduce;
pub mod unique;
