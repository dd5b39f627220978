pub mod click;
pub mod data;
pub mod display;
pub mod editor;
pub mod oscillator;
pub mod plugin;
pub mod render;
pub mod scheduler;
pub mod transport;
