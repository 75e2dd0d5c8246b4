pub mod packets;
pub mod union;

pub use packets::{ClientsidePongResponse, ClientsidePongResponseView, ClientsideStatusResponse, ClientsideStatusResponseView, ServersidePingRequest, ServersidePingRequestView, ServersideStatusRequest, ServersideStatusRequestView};
pub use union::{ClientsideStatusPacket, ClientsideStatusPacketView, ServersideStatusPacket, ServersideStatusPacketView};
