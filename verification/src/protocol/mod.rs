pub mod compression;
pub mod connection;
pub mod packet;
pub mod packets;
pub mod reader;
pub mod types;
pub mod writer;
