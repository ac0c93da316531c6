//! Decision logic of a Telegram bot that downloads videos and music with
//! `yt-dlp` and keeps per-user state in Redis.
//!
//! Everything here is plain computation: routing of chat messages and button
//! presses, the layout of the database keys and stored values, the
//! configuration menus, and the choices made around a download.  The program
//! around it performs the network, database and process work.

pub mod user_status;
pub mod config;
pub mod chat_config;
pub mod db;
pub mod handles;
pub mod commands;
mod text;
