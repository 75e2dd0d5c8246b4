pub mod codec;
pub mod client;
pub mod protocol;
pub mod bot;
pub mod proxy;
