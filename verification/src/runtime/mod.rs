pub mod engine;
pub mod replay;
pub mod types;
pub mod properties;
