pub mod ai;
pub mod commands;
pub mod config;
pub mod connections;
pub mod network;
pub mod pairing;
pub mod protocol;
pub mod router;
pub mod session;
pub mod table;
pub mod text;
