pub mod cursor;
pub mod varint;
pub mod varlong;
pub mod buffer;
pub mod string;
pub mod containers;
pub mod uuid;
