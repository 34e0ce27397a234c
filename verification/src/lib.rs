//! A YGOPro duel server's logic, verified: the wire messages and their codecs, decks,
//! limit lists and card data, the rules of a duel room, replays, and the routing of the
//! engine's messages to the seats of a room.
pub mod bytes;
pub mod card;
pub mod cli;
pub mod constants;
pub mod data_manager;
pub mod deck;
pub mod deck_text;
pub mod duel;
pub mod engine;
pub mod extract;
pub mod lflist;
pub mod managers;
pub mod message;
pub mod processor;
pub mod random;
pub mod replay;
pub mod replay_body;
pub mod replay_plugin;
pub mod response;
pub mod single_duel;
pub mod start_game;
pub mod string;
pub mod strings_conf;
pub mod text;
pub mod validation;
pub mod ypk;
