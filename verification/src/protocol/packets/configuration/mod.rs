pub mod packets;
pub mod union;

pub use packets::{ClientsideAddResourcePack, ClientsideAddResourcePackView, ClientsideCookieRequest, ClientsideCookieRequestView, ClientsideCustomReportDetails, ClientsideCustomReportDetailsView, ClientsideDisconnect, ClientsideDisconnectView, ClientsideFeatureFlags, ClientsideFeatureFlagsView, ClientsideFinishConfiguration, ClientsideFinishConfigurationView, ClientsideKnownPacks, ClientsideKnownPacksView, ClientsidePing, ClientsidePingView, ClientsidePluginMessage, ClientsidePluginMessageView, ClientsideRegistryData, ClientsideRegistryDataView, ClientsideRemoveResourcePack, ClientsideRemoveResourcePackView, ClientsideResetChat, ClientsideResetChatView, ClientsideServerLinks, ClientsideServerLinksView, ClientsideStoreCookie, ClientsideStoreCookieView, ClientsideTransfer, ClientsideTransferView, ClientsideUpdateTags, ClientsideUpdateTagsView, KnownPack, KnownPackView, MultisideKeepAlive, MultisideKeepAliveView, ReportDetail, ReportDetailView, ResourcePackState, ServerLink, ServerLinkLabel, ServerLinkLabelView, ServerLinkView, ServersideAcknowledgeFinishConfiguration, ServersideAcknowledgeFinishConfigurationView, ServersideClientInformation, ServersideClientInformationView, ServersideCookieResponse, ServersideCookieResponseView, ServersideKnownPacks, ServersideKnownPacksView, ServersidePluginMessage, ServersidePluginMessageView, ServersidePong, ServersidePongView, ServersideResourcePackResponse, ServersideResourcePackResponseView, Tag, TagGroup, TagGroupView, TagView};
pub use union::{ClientsideConfigurationPacket, ClientsideConfigurationPacketView, ServersideConfigurationPacket, ServersideConfigurationPacketView};
