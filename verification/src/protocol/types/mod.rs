pub mod additional_message_info;
pub mod client_command;
pub mod intention;
pub mod last_seen_message;
pub mod resource_pack_state;

pub use additional_message_info::{AdditionalMessageInfo, AdditionalMessageInfoView};
pub use client_command::ClientCommand;
pub use intention::ClientIntention;
pub use last_seen_message::LastSeenMessage;
pub use resource_pack_state::ResourcePackState;
