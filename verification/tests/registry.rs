use maxine::registry::{
    CommandSpec, DispatchError, Handler, Invocation, OptionKind, OptionSpec, OptionValue,
    RawOption, RawValue, RegisterError, Registry,
};
use maxine::surface::standard;

fn option(name: &str, kind: OptionKind, required: bool) -> OptionSpec {
    OptionSpec { name: name.to_string(), kind, required }
}

fn command(name: &str, options: Vec<OptionSpec>) -> CommandSpec {
    CommandSpec { name: name.to_string(), description: String::new(), options }
}

fn text(name: &str, value: &str) -> RawOption {
    RawOption { name: name.to_string(), value: RawValue::String(value.to_string()) }
}

fn flag(name: &str, value: bool) -> RawOption {
    RawOption { name: name.to_string(), value: RawValue::Boolean(value) }
}

#[test]
fn registering_a_name_twice_is_refused() {
    let mut registry = Registry::new();
    assert_eq!(registry.register(command("cat", vec![]), Handler::Cat), Ok(()));
    assert_eq!(
        registry.register(command("cat", vec![]), Handler::Dog),
        Err(RegisterError::Duplicate)
    );
    assert_eq!(registry.len(), 1);
    assert_eq!(registry.lookup("cat").map(|e| e.handler), Some(Handler::Cat));
}

#[test]
fn unknown_command_is_not_implemented() {
    let registry = standard();
    assert_eq!(registry.dispatch("nonsense", &vec![]), Err(DispatchError::NotImplemented));
    assert_eq!(
        Registry::new().dispatch("cat", &vec![text("x", "y")]),
        Err(DispatchError::NotImplemented)
    );
}

#[test]
fn missing_required_option_is_invalid() {
    let registry = standard();
    assert_eq!(
        registry.dispatch("8ball", &vec![]),
        Err(DispatchError::InvalidOption("question".to_string()))
    );
}

#[test]
fn option_of_another_kind_is_invalid() {
    let registry = standard();
    assert_eq!(
        registry.dispatch("8ball", &vec![flag("question", true)]),
        Err(DispatchError::InvalidOption("question".to_string()))
    );
    assert_eq!(
        registry.dispatch("ask", &vec![text("query", "q"), text("use_default_prompt", "yes")]),
        Err(DispatchError::InvalidOption("use_default_prompt".to_string()))
    );
}

#[test]
fn absent_optional_option_resolves_to_nothing() {
    let registry = standard();
    assert_eq!(
        registry.dispatch("ask", &vec![text("query", "why?")]),
        Ok(Invocation {
            handler: Handler::Ask,
            options: vec![Some(OptionValue::String("why?".to_string())), None],
        })
    );
}

#[test]
fn options_come_in_the_order_of_declaration() {
    let registry = standard();
    let raw = vec![
        text("format", "gif"),
        text("clip_end", "0:10"),
        text("url", "https://example.com/v"),
        text("ignored", "x"),
    ];
    assert_eq!(
        registry.dispatch("save", &raw),
        Ok(Invocation {
            handler: Handler::Save,
            options: vec![
                Some(OptionValue::String("https://example.com/v".to_string())),
                None,
                Some(OptionValue::String("0:10".to_string())),
                Some(OptionValue::String("gif".to_string())),
            ],
        })
    );
}

#[test]
fn the_first_invalid_option_is_named() {
    let mut registry = Registry::new();
    let spec = command(
        "both",
        vec![option("a", OptionKind::Integer, true), option("b", OptionKind::User, true)],
    );
    assert_eq!(registry.register(spec, Handler::Help), Ok(()));
    assert_eq!(
        registry.dispatch("both", &vec![]),
        Err(DispatchError::InvalidOption("a".to_string()))
    );
    let only_a = vec![RawOption { name: "a".to_string(), value: RawValue::Integer(-3) }];
    assert_eq!(
        registry.dispatch("both", &only_a),
        Err(DispatchError::InvalidOption("b".to_string()))
    );
    let both = vec![
        RawOption { name: "b".to_string(), value: RawValue::User("42".to_string()) },
        RawOption { name: "a".to_string(), value: RawValue::Integer(-3) },
    ];
    assert_eq!(
        registry.dispatch("both", &both),
        Ok(Invocation {
            handler: Handler::Help,
            options: vec![
                Some(OptionValue::Integer(-3)),
                Some(OptionValue::UserRef("42".to_string())),
            ],
        })
    );
}

#[test]
fn the_first_delivered_value_of_a_name_counts() {
    let registry = standard();
    assert_eq!(
        registry.dispatch("urban", &vec![text("query", "first"), text("query", "second")]),
        Ok(Invocation {
            handler: Handler::Urban,
            options: vec![Some(OptionValue::String("first".to_string()))],
        })
    );
}

#[test]
fn the_standard_registry_holds_every_command() {
    let registry = standard();
    assert_eq!(registry.len(), 17);
    let names = [
        ("avatar", Handler::Avatar),
        ("cat", Handler::Cat),
        ("dog", Handler::Dog),
        ("8ball", Handler::EightBall),
        ("help", Handler::Help),
        ("urban", Handler::Urban),
        ("ask", Handler::Ask),
        ("save", Handler::Save),
        ("setcolour", Handler::SetColour),
        ("time", Handler::Time),
        ("translate", Handler::Translate),
        ("tldrify", Handler::Tldrify),
        ("tldrify link", Handler::TldrifyLink),
        ("tldrify message", Handler::TldrifyMessage),
        ("prompt", Handler::Prompt),
        ("prompt set", Handler::PromptSet),
        ("prompt get", Handler::PromptGet),
    ];
    for (name, handler) in names {
        assert_eq!(registry.lookup(name).map(|e| e.handler), Some(handler));
    }
    assert!(registry.lookup("Cat").is_none());
}
