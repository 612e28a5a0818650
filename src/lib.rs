pub mod app;
pub mod config;
pub mod device;
pub mod laws;
pub mod popup;
