pub mod camera;
pub mod device;
pub mod encoding;
pub mod engine;
pub mod error;
