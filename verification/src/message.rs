//! The wire messages: client-to-server (`ctos`), server-to-client (`stoc`) and the
//! duel engine's game messages (`gm`).
pub mod card_codes;
pub mod client_to_server;
pub mod game_message;
pub mod host_info;
pub mod place_messages;
pub mod server_to_client;
pub mod value_messages;

pub use client_to_server as ctos;
pub use client_to_server::PureMessage;
pub use game_message as gm;
pub use host_info::HostInfo;
pub use server_to_client as stoc;
