use maxine::config::{Bot, Config, Ollama};
use maxine::util::search::{search_url, SearchResponse, SearchResult};

#[test]
fn the_settings_lie_below_the_data_directory() {
    assert_eq!(Config::file_location("./data"), "./data/config.json");
    assert_eq!(Config::file_location(""), "/config.json");
}

#[test]
fn settings_hold_their_parts() {
    let config = Config {
        open_api_key: "k".to_string(),
        bot: Bot { token: "t".to_string(), nickname: "Maxine".to_string(), status: "s".to_string() },
        ollama: Ollama { host: "http://localhost:11434".to_string(), system_prompt: "p".to_string() },
        searxng_base_url: "http://search".to_string(),
        twitter_embed_url: "https://fxtwitter.com".to_string(),
    };
    assert_eq!(config.clone(), config);
    assert_eq!(config.bot.nickname, "Maxine");
}

#[test]
fn searches_ask_for_json() {
    assert_eq!(search_url("http://search", "rust"), "http://search/search?q=rust&format=json");
    let response = SearchResponse {
        results: vec![SearchResult { title: "a".to_string(), content: "b".to_string() }],
    };
    assert_eq!(response.results[0].title, "a");
}
