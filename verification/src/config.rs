//! Settings the bot is started with.
use vstd::prelude::*;

verus! {

/// The bot's settings: the `yt-dlp` format selectors for videos and for
/// music, where the database is reached (if anywhere), and the bot's token.
#[derive(Clone, Debug)]
pub struct Config {
    pub vid_format: String,
    pub aud_format: String,
    pub redis_address: Option<String>,
    pub telegram_token: String,
}

} // verus!
