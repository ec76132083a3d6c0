pub mod config;
pub mod controller;
pub mod engine;
pub mod view;
