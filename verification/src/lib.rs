//! The logic of the Balamut game server: how a request to the API is routed,
//! what each handler asks of the player database and answers, and the
//! session cookies that tie a browser to a player.

pub mod db;
pub mod filters;
pub mod handlers;
pub mod models;
pub mod paths;
pub mod sql;
pub mod tables;
pub mod text;
