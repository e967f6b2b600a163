pub mod config;
pub mod frame_clock;
pub mod gui;
pub mod input;
pub mod runner;
pub mod scene;
pub mod surface;
pub mod texture;
