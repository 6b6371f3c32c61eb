//! The operations of the application, each as a sans-IO exchange.

pub mod config;
pub mod image;
pub mod openai;
pub mod wordpress;
