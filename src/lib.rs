pub mod engine;
pub mod module;
pub mod options;
