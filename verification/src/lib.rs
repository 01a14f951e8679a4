pub mod config;
pub mod directory;
pub mod gateway;
pub mod issuer;
pub mod registration;
pub mod render;
pub mod session;
