pub mod packets;
pub mod union;

pub use packets::{ClientsideAddResourcePack, ClientsideAddResourcePackView, ClientsideChunkCacheCenter, ClientsideChunkCacheCenterView, ClientsideChunkCacheRadius, ClientsideChunkCacheRadiusView, ClientsideClearChat, ClientsideClearChatView, ClientsideDisconnect, ClientsideDisconnectView, ClientsideLogin, ClientsideLoginView, ClientsideOpenContainer, ClientsideOpenContainerView, ClientsidePing, ClientsidePingResponse, ClientsidePingResponseView, ClientsidePingView, ClientsidePlayerChat, ClientsidePlayerChatView, ClientsidePlayerCombatKill, ClientsidePlayerCombatKillView, ClientsidePlayerPosition, ClientsidePlayerPositionView, ClientsideRemoveEntities, ClientsideRemoveEntitiesView, ClientsideRemoveEntityEffect, ClientsideRemoveEntityEffectView, ClientsideRemoveResourcePack, ClientsideRemoveResourcePackView, ClientsideRotateHead, ClientsideRotateHeadView, ClientsideSectionBlocksUpdate, ClientsideSectionBlocksUpdateView, ClientsideSetCamera, ClientsideSetCameraView, ClientsideSetEntityLink, ClientsideSetEntityLinkView, ClientsideSetHeldItem, ClientsideSetHeldItemView, ClientsideSetPassengers, ClientsideSetPassengersView, ClientsideSystemChat, ClientsideSystemChatView, ClientsideTransfer, ClientsideTransferView, ClientsideUnloadChunk, ClientsideUnloadChunkView, ClientsideUpdateEntityPos, ClientsideUpdateEntityPosRot, ClientsideUpdateEntityPosRotView, ClientsideUpdateEntityPosView, ClientsideUpdateEntityRot, ClientsideUpdateEntityRotView, MultisideKeepAlive, MultisideKeepAliveView, RotationBits, RotationBitsView, ServersideAcceptTeleportation, ServersideAcceptTeleportationView, ServersideChatCommand, ServersideChatCommandView, ServersideChatMessage, ServersideChatMessageView, ServersideClientCommand, ServersideClientCommandView, ServersidePingRequest, ServersidePingRequestView, ServersidePong, ServersidePongView, ServersideResourcePackResponse, ServersideResourcePackResponseView, ServersideSetHeldItem, ServersideSetHeldItemView, TeleportFlags, TeleportFlagsView, Vector3Bits, Vector3BitsView};
pub use union::{ClientsidePlayPacket, ClientsidePlayPacketView, ServersidePlayPacket, ServersidePlayPacketView};
