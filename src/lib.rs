pub mod buffer;
pub mod editor;
pub mod error;
pub mod gateway;
pub mod laws;
