pub mod result;
pub mod socks5;
