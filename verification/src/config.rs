//! The settings document that the bot reads once when it starts.

use vstd::prelude::*;

verus! {

/// The settings of the whole bot.
#[derive(Debug, Clone, PartialEq, Eq)]
pub struct Config {
    pub open_api_key: String,
    pub bot: Bot,
    pub ollama: Ollama,
    pub searxng_base_url: String,
    pub twitter_embed_url: String,
}

/// How the bot presents itself to the chat platform.
#[derive(Debug, Clone, PartialEq, Eq)]
pub struct Bot {
    pub token: String,
    pub nickname: String,
    pub status: String,
}

/// Where the language model is reached, and what it is told by default.
#[derive(Debug, Clone, PartialEq, Eq)]
pub struct Ollama {
    pub host: String,
    pub system_prompt: String,
}

impl Config {
    /// The place of the settings document below the data directory `dir`.
    pub fn file_location(dir: &str) -> (path: String)
        ensures
            path@ == dir@ + "/config.json"@,
    {
        let mut path = String::from_str(dir);
        path.append("/config.json");
        path
    }
}

} // verus!
