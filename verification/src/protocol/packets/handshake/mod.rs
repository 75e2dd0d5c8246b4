pub mod packets;
pub mod union;

pub use packets::{ClientIntention, ServersideGreet, ServersideGreetView};
pub use union::{ClientsideHandshakePacket, ServersideHandshakePacket, ServersideHandshakePacketView};
