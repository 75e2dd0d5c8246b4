pub mod session;
pub mod structs;
pub mod version;
