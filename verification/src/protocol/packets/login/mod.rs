pub mod packets;
pub mod union;

pub use packets::{ClientsideCookieRequest, ClientsideCookieRequestView, ClientsideEncryptionRequest, ClientsideEncryptionRequestView, ClientsideLoginDisconnect, ClientsideLoginDisconnectView, ClientsideLoginSuccess, ClientsideLoginSuccessView, ClientsidePluginRequest, ClientsidePluginRequestView, ClientsideSetCompression, ClientsideSetCompressionView, Property, PropertyView, ServersideCookieResponse, ServersideCookieResponseView, ServersideEncryptionResponse, ServersideEncryptionResponseView, ServersideLoginAcknowledged, ServersideLoginAcknowledgedView, ServersideLoginStart, ServersideLoginStartView, ServersidePluginResponse, ServersidePluginResponseView};
pub use union::{ClientsideLoginPacket, ClientsideLoginPacketView, ServersideLoginPacket, ServersideLoginPacketView};
