pub mod plugins;
pub mod names;
