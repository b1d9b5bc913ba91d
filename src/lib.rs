pub mod error;
pub mod source;
pub mod binary;
pub mod world;
pub mod loader;
