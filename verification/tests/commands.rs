use maxine::commands::ask::{ask_reply, make_ask_request};
use maxine::commands::avatar::User;
use maxine::commands::eightball::{eightball_reply, eightball_responses};
use maxine::commands::time::{time_reply, time_url};
use maxine::commands::tldrify::{choose_text, summary_outcome};
use maxine::commands::translate::translate_request;
use maxine::commands::urban::{urban_url, UrbanItem};
use maxine::commands::{
    article_text, ask, avatar, cat, create_embed, dog, eightball, get, get_command_help, help,
    link, message, prompt, time, tldr_query, tldrify, translate, urban, AskAction, AskEvent,
    AskState,
};
use maxine::llm::GenerationRequest;
use maxine::reply::{Embed, EmbedField, Reply};
use maxine::request::HandlerEvent;
use maxine::summarize::SummarizationError;

fn field(name: &str, value: &str) -> EmbedField {
    EmbedField { name: name.to_string(), value: value.to_string(), inline: false }
}

fn embed() -> Embed {
    Embed {
        title: None,
        description: None,
        image: None,
        fields: vec![],
        footer: Some("Powered by Maxine".to_string()),
        colour: None,
    }
}

fn texts(items: &[&str]) -> Vec<String> {
    items.iter().map(|s| s.to_string()).collect()
}

#[test]
fn eightball_answers_with_one_of_its_responses() {
    let all = eightball_responses();
    assert_eq!(all.len(), 13);
    assert_eq!(all[0], "It is certain");
    assert_eq!(all[12], "Very doubtful");
    for _ in 0..200 {
        match eightball("Ann", "Will it rain?") {
            Reply::Embed(e) => {
                assert_eq!(e.title.as_deref(), Some("Magic 8ball"));
                assert_eq!(e.fields.len(), 2);
                assert_eq!(e.fields[0], field("Ann asked", "Will it rain?"));
                assert_eq!(e.fields[1].name, "The 8ball says");
                assert!(all.contains(&e.fields[1].value.as_str()));
                assert_eq!(e.footer.as_deref(), Some("Powered by Maxine"));
            }
            other => panic!("{:?}", other),
        }
    }
}

#[test]
fn eightball_draws_are_not_all_the_same() {
    let first = eightball("Ann", "q");
    let mut differs = false;
    for _ in 0..500 {
        if eightball("Ann", "q") != first {
            differs = true;
        }
    }
    assert!(differs);
}

#[test]
fn eightball_without_a_draw_says_try_again_later() {
    let expected = Embed {
        title: Some("Magic 8ball".to_string()),
        fields: vec![field("Ann asked", "q"), field("The 8ball says", "Try again later")],
        ..embed()
    };
    assert_eq!(eightball_reply("Ann", "q", None), Reply::Embed(expected));
    let expected = Embed {
        title: Some("Magic 8ball".to_string()),
        fields: vec![field("Ann asked", "q"), field("The 8ball says", "No!")],
        ..embed()
    };
    assert_eq!(eightball_reply("Ann", "q", Some("No!")), Reply::Embed(expected));
}

#[test]
fn urban_without_an_entry_is_no_error() {
    let nothing = Reply::Text("No definition could be found.".to_string());
    assert_eq!(urban(Some(&vec![])), nothing);
    assert_eq!(urban(None), nothing);
}

#[test]
fn urban_shows_the_first_entry() {
    let entries = vec![
        UrbanItem { word: "yeet".to_string(), definition: "to throw".to_string() },
        UrbanItem { word: "other".to_string(), definition: "x".to_string() },
    ];
    let expected = Embed {
        title: Some("Urban Dictionary: yeet".to_string()),
        fields: vec![field("Definition", "to throw")],
        ..embed()
    };
    assert_eq!(urban(Some(&entries)), Reply::Embed(expected));
    assert_eq!(urban_url("yeet"), "https://api.urbandictionary.com/v0/define?term=yeet");
}

#[test]
fn cat_and_dog_show_a_picture_or_say_there_is_none() {
    let expected = Embed {
        title: Some("Here's your cat!".to_string()),
        image: Some("https://cat/1.png".to_string()),
        ..embed()
    };
    assert_eq!(cat(&texts(&["https://cat/1.png", "https://cat/2.png"])), Reply::Embed(expected));
    assert_eq!(cat(&vec![]), Reply::Quote("Unable to fetch cat photo :(".to_string()));
    let expected = Embed {
        title: Some("Here's your dog!".to_string()),
        image: Some("https://dog/1.png".to_string()),
        ..embed()
    };
    assert_eq!(dog(Some("https://dog/1.png")), Reply::Embed(expected));
    assert_eq!(dog(None), Reply::Quote("Unable to fetch dog photo :(".to_string()));
}

#[test]
fn avatar_shows_the_named_user_or_the_author() {
    let author = User {
        name: "ann".to_string(),
        global_name: Some("Ann".to_string()),
        avatar_url: Some("https://cdn/ann.webp".to_string()),
    };
    let other =
        User { name: "bob".to_string(), global_name: None, avatar_url: Some("https://cdn/bob.webp".to_string()) };
    let hidden = User { name: "eve".to_string(), global_name: None, avatar_url: None };
    assert_eq!(author.display_name(), "Ann");
    assert_eq!(other.display_name(), "bob");
    let expected = Embed {
        title: Some("Avatar for Ann".to_string()),
        image: Some("https://cdn/ann.webp".to_string()),
        ..embed()
    };
    assert_eq!(avatar(None, &author), HandlerEvent::Replied(Reply::Embed(expected)));
    let expected = Embed {
        title: Some("Avatar for bob".to_string()),
        image: Some("https://cdn/bob.webp".to_string()),
        ..embed()
    };
    assert_eq!(avatar(Some(&other), &author), HandlerEvent::Replied(Reply::Embed(expected)));
    assert_eq!(avatar(Some(&hidden), &author), HandlerEvent::Faulted);
}

#[test]
fn help_knows_commands_in_any_case() {
    assert!(get_command_help("ASK").starts_with("**Ask me anything!**\n\nUsage: `/ask <your question>`"));
    assert!(get_command_help("8ball").starts_with("**Ask the magic 8ball**"));
    assert!(get_command_help("SetColour").ends_with("Example: `/setcolour blue` or `/setcolour #FF0000`"));
    assert_eq!(
        get_command_help("cat"),
        "**Get random cat images**\n\nUsage: `/cat`\n\nFetches a random cat image from The Cat API.\n\nExample: `/cat`"
    );
    assert_eq!(
        get_command_help("nonsense"),
        "Command not found. Use `/help` to see all available commands."
    );
    assert_eq!(get_command_help(""), "Command not found. Use `/help` to see all available commands.");
}

#[test]
fn help_shows_one_command_or_the_overview() {
    let expected = Embed {
        title: Some("Help: /Dog".to_string()),
        description: Some(
            "**Get random dog images**\n\nUsage: `/dog`\n\nFetches a random dog image from an API.\n\nExample: `/dog`"
                .to_string(),
        ),
        ..embed()
    };
    assert_eq!(help(Some("Dog")), Reply::Embed(expected));
    match help(None) {
        Reply::Embed(e) => {
            assert_eq!(e.title.as_deref(), Some("Maxine Bot Commands"));
            assert_eq!(e.description.as_deref(), Some("Here are all the available commands:"));
            assert_eq!(e.fields.len(), 5);
            assert_eq!(e.fields[0].name, "\u{1F916} AI & Language Commands");
            assert_eq!(
                e.fields[3],
                field("\u{1F3A8} Customization Commands", "\u{2022} `/setcolour` - Set your Discord name color")
            );
            assert_eq!(e.fields[4].name, "\u{1F4A1} Usage Tips");
            assert_eq!(e.footer.as_deref(), Some("Powered by Maxine"));
        }
        other => panic!("{:?}", other),
    }
}

#[test]
fn prompt_answers() {
    assert_eq!(prompt(), Reply::Text("Please use `/prompt set` or `/prompt get`".to_string()));
    let expected = Embed {
        title: Some("Prompt Updated".to_string()),
        description: Some("Your custom system prompt has been updated successfully.".to_string()),
        fields: vec![field("New Prompt", "be kind")],
        ..embed()
    };
    assert_eq!(maxine::commands::prompt::set("be kind", None), HandlerEvent::Replied(Reply::Embed(expected)));
    assert_eq!(
        maxine::commands::prompt::set("be kind", Some("database is locked".to_string())),
        HandlerEvent::Failed("database is locked".to_string())
    );
    let expected = Embed {
        title: Some("Your Custom Prompt".to_string()),
        description: Some("Here is your current custom system prompt:".to_string()),
        fields: vec![field("Prompt", "be kind")],
        ..embed()
    };
    assert_eq!(get(Some("be kind")), Reply::Embed(expected));
    assert_eq!(
        get(None),
        Reply::Text(
            "You don't have a custom prompt set yet. Use `/prompt set` to set one.".to_string()
        )
    );
}

#[test]
fn translate_asks_and_answers() {
    let request = translate_request("tools-model", "hola");
    assert_eq!(request.model, "tools-model");
    assert_eq!(request.preamble, None);
    assert_eq!(request.additions.len(), 1);
    assert!(request.additions[0].starts_with("You are excellent at detecting languages"));
    assert_eq!(request.prompt, "Detect what language and translate this into English: hola");
    let expected = Embed {
        fields: vec![field(&["LLM Translation", "from Spanish to English"].join(" "), "hello")],
        ..embed()
    };
    assert_eq!(translate("Spanish", "hello"), Reply::Embed(expected));
}

#[test]
fn ask_fetches_the_own_prompt_unless_the_default_is_wanted() {
    let (state, action) = ask("Ann", "why?", None, "default");
    assert_eq!(state, AskState::AwaitingPrompt { name: "Ann".to_string(), query: "why?".to_string() });
    assert_eq!(action, AskAction::FetchPrompt);
    let (_, action) = ask("Ann", "why?", Some(false), "default");
    assert_eq!(action, AskAction::FetchPrompt);
    let (state, action) = ask("Ann", "why?", Some(true), "default");
    assert_eq!(
        state,
        AskState::AwaitingResponse { name: "Ann".to_string(), query: "why?".to_string() }
    );
    assert_eq!(action, AskAction::Generate(make_ask_request("default", "Ann", "why?")));
}

#[test]
fn ask_request_holds_the_instruction_and_the_name() {
    assert_eq!(
        make_ask_request("be kind", "Ann", "why?"),
        GenerationRequest {
            model: "gemma3:4b".to_string(),
            preamble: Some("be kind".to_string()),
            additions: texts(&[
                "Make your response no longer than 1024 characters",
                "The users name is Ann",
            ]),
            prompt: "why?".to_string(),
        }
    );
}

#[test]
fn ask_runs_to_an_answer() {
    let (state, _) = ask("Ann", "why?", None, "default");
    let (state, action) = state.step(AskEvent::Prompt(Ok("be kind".to_string())));
    assert_eq!(action, AskAction::Generate(make_ask_request("be kind", "Ann", "why?")));
    let (state, action) =
        state.step(AskEvent::Response(Ok("<think>hm</think>\nbecause ".to_string())));
    assert_eq!(state, AskState::Finished);
    let expected =
        Embed { fields: vec![field("Ann asked", "why?"), field("Response", "because")], ..embed() };
    assert_eq!(action, AskAction::Finish(HandlerEvent::Replied(Reply::Embed(expected))));
    let (state, action) = state.step(AskEvent::Response(Ok("again".to_string())));
    assert_eq!((state, action), (AskState::Finished, AskAction::Nothing));
}

#[test]
fn ask_fails_without_the_own_prompt_and_shows_a_model_failure() {
    let (state, _) = ask("Ann", "why?", None, "default");
    let (state, action) = state.step(AskEvent::Prompt(Err("no rows".to_string())));
    assert_eq!(state, AskState::Finished);
    assert_eq!(action, AskAction::Finish(HandlerEvent::Failed("no rows".to_string())));
    let (state, _) = ask("Ann", "why?", Some(true), "default");
    let (_, action) = state.step(AskEvent::Response(Err(" connection refused ".to_string())));
    assert_eq!(
        action,
        AskAction::Finish(HandlerEvent::Replied(ask_reply("Ann", "why?", "connection refused")))
    );
}

#[test]
fn time_reads_the_label_and_the_clock() {
    let page = "<html><body><div class=\"baselClock\"><div class=\"b_focusLabel\">Time in <b>Paris</b></div></div><div id=\"digit_time\">10:00</div></body></html>";
    let expected = Embed {
        title: Some("Time".to_string()),
        description: Some("Time in Paris is 10:00".to_string()),
        ..embed()
    };
    assert_eq!(time(page), HandlerEvent::Replied(Reply::Embed(expected)));
    let expected = Embed {
        title: Some("Time".to_string()),
        description: Some(" is ".to_string()),
        ..embed()
    };
    assert_eq!(time("<p>nothing</p>"), HandlerEvent::Replied(Reply::Embed(expected)));
    assert_eq!(time_url("Paris"), "https://www.bing.com/search?q=time+in+Paris");
}

#[test]
fn time_breaks_off_on_a_malformed_selector() {
    assert_eq!(time_reply(None, Some(None)), HandlerEvent::Faulted);
    assert_eq!(time_reply(Some(Some(texts(&["a", "b"]))), None), HandlerEvent::Faulted);
    let expected = Embed {
        title: Some("Time".to_string()),
        description: Some("ab is c".to_string()),
        ..embed()
    };
    assert_eq!(
        time_reply(Some(Some(texts(&["a", "b"]))), Some(Some(texts(&["c"])))),
        HandlerEvent::Replied(Reply::Embed(expected))
    );
}

#[test]
fn tldrify_takes_links_only() {
    assert_eq!(tldrify(), Reply::Text("Please use `/tldrify message` or `/tldrify link`".to_string()));
    assert_eq!(link("https://example.com"), None);
    assert_eq!(link("http"), None);
    assert_eq!(link("example.com"), Some(Reply::Text("Please provide a valid link".to_string())));
    assert_eq!(link(""), Some(Reply::Text("Please provide a valid link".to_string())));
}

#[test]
fn article_text_prefers_the_article() {
    let page = "<html><body><p>menu</p><article> Hello <b>big</b> world </article></body></html>";
    assert_eq!(article_text(page), Some("Hello  big  world".to_string()));
    let page = "<html><body><p>Only</p><p>body</p></body></html>";
    assert_eq!(article_text(page), Some("Only body".to_string()));
}

#[test]
fn choose_text_falls_back_to_the_page() {
    assert_eq!(choose_text("raw", Some(None), Some(None)), Some("raw".to_string()));
    assert_eq!(
        choose_text("raw", Some(None), Some(Some(texts(&[" a", "b "])))),
        Some("a b".to_string())
    );
    assert_eq!(
        choose_text("raw", Some(Some(texts(&["x"]))), Some(Some(texts(&["y"])))),
        Some("x".to_string())
    );
    assert_eq!(choose_text("raw", None, Some(None)), None);
    assert_eq!(choose_text("raw", Some(None), None), None);
}

#[test]
fn summaries_are_asked_for_within_the_field_limit() {
    let (state, request) = tldr_query("some text");
    assert_eq!(state.text, "some text");
    assert_eq!(state.attempts, 1);
    assert_eq!(state.max_len, 1024);
    assert_eq!(state.max_attempts, 5);
    assert_eq!(request.prompt, "Create a TLDR version of this text: some text");
    let (state, request) = message("a message");
    assert_eq!(state.text, "a message");
    assert_eq!(request.prompt, "Create a TLDR version of this text: a message");
}

#[test]
fn summaries_are_shown_and_failures_surface() {
    let expected = Embed {
        title: Some("TLDR Summary".to_string()),
        fields: vec![field("Summary", "short")],
        ..embed()
    };
    assert_eq!(create_embed("short"), Reply::Embed(expected));
    assert_eq!(summary_outcome(Ok("short")), HandlerEvent::Replied(create_embed("short")));
    assert_eq!(
        summary_outcome(Err(SummarizationError::NotConvergent)),
        HandlerEvent::Failed("The summary could not be brought within the length limit.".to_string())
    );
}
