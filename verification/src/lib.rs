pub mod configuration;
pub mod directory;
pub mod discovery;
pub mod error;
pub mod probe;
pub mod service;
pub mod text;
pub mod upstream;
