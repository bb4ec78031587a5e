//! The commands of the bot as they are registered when it starts.

use crate::registry::{
    has_command, names_unique, option_spec_views, CommandSpec, CommandSpecView, EntryView, Handler,
    OptionKind, OptionSpec, OptionSpecView, Registry,
};
use vstd::prelude::*;

verus! {

/// A declared option as plain values.
pub open spec fn option(name: Seq<char>, kind: OptionKind, required: bool) -> OptionSpecView {
    OptionSpecView { name, kind, required }
}

/// A registry entry as plain values.
pub open spec fn entry(
    name: Seq<char>,
    description: Seq<char>,
    options: Seq<OptionSpecView>,
    handler: Handler,
) -> EntryView {
    EntryView { spec: CommandSpecView { name, description, options }, handler }
}

/// The commands of the bot, in the order they are registered.
pub open spec fn standard_surface() -> Seq<EntryView> {
    seq![
        entry(
            "avatar"@,
            "Displays your or another user's Avatar."@,
            seq![
                option("user"@, OptionKind::User, false),
            ],
            Handler::Avatar,
        ),
        entry(
            "cat"@,
            "Get a random cat image."@,
            Seq::empty(),
            Handler::Cat,
        ),
        entry(
            "dog"@,
            "Get a random dog image."@,
            Seq::empty(),
            Handler::Dog,
        ),
        entry(
            "8ball"@,
            "8ball answers any question!."@,
            seq![
                option("question"@, OptionKind::String, true),
            ],
            Handler::EightBall,
        ),
        entry(
            "help"@,
            ""@,
            seq![
                option("command"@, OptionKind::String, false),
            ],
            Handler::Help,
        ),
        entry(
            "urban"@,
            "Queries Urban Dictionary for definitions."@,
            seq![
                option("query"@, OptionKind::String, true),
            ],
            Handler::Urban,
        ),
        entry(
            "ask"@,
            "Ask me anything!"@,
            seq![
                option("query"@, OptionKind::String, true),
                option("use_default_prompt"@, OptionKind::Boolean, false),
            ],
            Handler::Ask,
        ),
        entry(
            "save"@,
            "Saves video from URL"@,
            seq![
                option("url"@, OptionKind::String, true),
                option("clip_start"@, OptionKind::String, false),
                option("clip_end"@, OptionKind::String, false),
                option("format"@, OptionKind::String, false),
            ],
            Handler::Save,
        ),
        entry(
            "setcolour"@,
            "Sets your discord name colour :)"@,
            seq![
                option("colour_code"@, OptionKind::String, true),
            ],
            Handler::SetColour,
        ),
        entry(
            "time"@,
            "Check the time for a location."@,
            seq![
                option("location"@, OptionKind::String, true),
            ],
            Handler::Time,
        ),
        entry(
            "translate"@,
            ""@,
            seq![
                option("msg"@, OptionKind::String, true),
            ],
            Handler::Translate,
        ),
        entry(
            "tldrify"@,
            ""@,
            Seq::empty(),
            Handler::Tldrify,
        ),
        entry(
            "tldrify link"@,
            ""@,
            seq![
                option("link"@, OptionKind::String, true),
            ],
            Handler::TldrifyLink,
        ),
        entry(
            "tldrify message"@,
            ""@,
            seq![
                option("msg"@, OptionKind::String, true),
            ],
            Handler::TldrifyMessage,
        ),
        entry(
            "prompt"@,
            "Manage your custom system prompt"@,
            Seq::empty(),
            Handler::Prompt,
        ),
        entry(
            "prompt set"@,
            "Set your custom system prompt"@,
            seq![
                option("prompt"@, OptionKind::String, true),
            ],
            Handler::PromptSet,
        ),
        entry(
            "prompt get"@,
            "Get your current custom system prompt"@,
            Seq::empty(),
            Handler::PromptGet,
        ),
    ]
}

/// Puts one more declared option behind those of `options`.
pub fn declare(options: &mut Vec<OptionSpec>, name: &str, kind: OptionKind, required: bool)
    ensures
        option_spec_views(final(options)@) == option_spec_views(old(options)@).push(
            option(name@, kind, required),
        ),
{
    let ghost before = options@;
    options.push(OptionSpec { name: String::from_str(name), kind, required });
    assert(option_spec_views(options@) =~= option_spec_views(before).push(
        option(name@, kind, required),
    ));
}

/// Registers a command whose name is not taken.
pub fn enter(
    registry: &mut Registry,
    name: &str,
    description: &str,
    options: Vec<OptionSpec>,
    handler: Handler,
)
    requires
        old(registry).wf(),
        !has_command(old(registry)@, name@),
    ensures
        final(registry).wf(),
        final(registry)@ == old(registry)@.push(
            entry(name@, description@, option_spec_views(options@), handler),
        ),
{
    let spec = CommandSpec {
        name: String::from_str(name),
        description: String::from_str(description),
        options,
    };
    let _ = registry.register(spec, handler);
}

/// The names of the commands of the bot, in the order of the surface.
pub open spec fn standard_names() -> Seq<Seq<char>> {
    seq![
        "avatar"@,
        "cat"@,
        "dog"@,
        "8ball"@,
        "help"@,
        "urban"@,
        "ask"@,
        "save"@,
        "setcolour"@,
        "time"@,
        "translate"@,
        "tldrify"@,
        "tldrify link"@,
        "tldrify message"@,
        "prompt"@,
        "prompt set"@,
        "prompt get"@,
    ]
}

/// No two commands of the bot carry the same name.
pub proof fn lemma_standard_surface_is_unique()
    ensures
        names_unique(standard_surface()),
{
    reveal_strlit("avatar");
    reveal_strlit("cat");
    reveal_strlit("dog");
    reveal_strlit("8ball");
    reveal_strlit("help");
    reveal_strlit("urban");
    reveal_strlit("ask");
    reveal_strlit("save");
    reveal_strlit("setcolour");
    reveal_strlit("time");
    reveal_strlit("translate");
    reveal_strlit("tldrify");
    reveal_strlit("tldrify link");
    reveal_strlit("tldrify message");
    reveal_strlit("prompt");
    reveal_strlit("prompt set");
    reveal_strlit("prompt get");
    let s = standard_surface();
    let names = standard_names();
    assert(s.len() == names.len());
    assert forall|i: int| 0 <= i < s.len() implies (#[trigger] s[i]).spec.name == names[i] by {}
    assert forall|i: int, j: int| 0 <= i < j < names.len() implies #[trigger] names[i]
        != #[trigger] names[j] by {
        let a = names[i];
        let b = names[j];
        // Two names differ in their length, in their first character, or
        // in one of two characters near their end.
        assert(a.len() != b.len() || a[0] != b[0] || a[a.len() - 1] != b[a.len() - 1]
            || a[a.len() - 3] != b[a.len() - 3]);
    }
}

/// In a sequence of entries with distinct names, the name of an entry is
/// carried by none of the entries before it.
pub proof fn lemma_name_is_fresh(entries: Seq<EntryView>, k: int)
    requires
        names_unique(entries),
        0 <= k < entries.len(),
    ensures
        !has_command(entries.take(k), entries[k].spec.name),
{
    assert forall|i: int| 0 <= i < entries.take(k).len() implies (#[trigger] entries.take(
        k,
    )[i]).spec.name != entries[k].spec.name by {
        assert(entries[i].spec.name != entries[k].spec.name);
    }
}

/// The registry of the bot: every command it serves, bound to its handler.
pub fn standard() -> (registry: Registry)
    ensures
        registry.wf(),
        registry@ == standard_surface(),
{
    proof {
        lemma_standard_surface_is_unique();
    }
    let mut registry = Registry::new();
    assert(registry@ =~= standard_surface().take(0));

    let mut options: Vec<OptionSpec> = Vec::new();
    assert(option_spec_views(options@) =~= Seq::<OptionSpecView>::empty());
    declare(&mut options, "user", OptionKind::User, false);
    proof {
        lemma_name_is_fresh(standard_surface(), 0);
    }
    enter(&mut registry, "avatar", "Displays your or another user's Avatar.", options, Handler::Avatar);
    assert(registry@ =~= standard_surface().take(1));

    let mut options: Vec<OptionSpec> = Vec::new();
    assert(option_spec_views(options@) =~= Seq::<OptionSpecView>::empty());
    proof {
        lemma_name_is_fresh(standard_surface(), 1);
    }
    enter(&mut registry, "cat", "Get a random cat image.", options, Handler::Cat);
    assert(registry@ =~= standard_surface().take(2));

    let mut options: Vec<OptionSpec> = Vec::new();
    assert(option_spec_views(options@) =~= Seq::<OptionSpecView>::empty());
    proof {
        lemma_name_is_fresh(standard_surface(), 2);
    }
    enter(&mut registry, "dog", "Get a random dog image.", options, Handler::Dog);
    assert(registry@ =~= standard_surface().take(3));

    let mut options: Vec<OptionSpec> = Vec::new();
    assert(option_spec_views(options@) =~= Seq::<OptionSpecView>::empty());
    declare(&mut options, "question", OptionKind::String, true);
    proof {
        lemma_name_is_fresh(standard_surface(), 3);
    }
    enter(&mut registry, "8ball", "8ball answers any question!.", options, Handler::EightBall);
    assert(registry@ =~= standard_surface().take(4));

    let mut options: Vec<OptionSpec> = Vec::new();
    assert(option_spec_views(options@) =~= Seq::<OptionSpecView>::empty());
    declare(&mut options, "command", OptionKind::String, false);
    proof {
        lemma_name_is_fresh(standard_surface(), 4);
    }
    enter(&mut registry, "help", "", options, Handler::Help);
    assert(registry@ =~= standard_surface().take(5));

    let mut options: Vec<OptionSpec> = Vec::new();
    assert(option_spec_views(options@) =~= Seq::<OptionSpecView>::empty());
    declare(&mut options, "query", OptionKind::String, true);
    proof {
        lemma_name_is_fresh(standard_surface(), 5);
    }
    enter(&mut registry, "urban", "Queries Urban Dictionary for definitions.", options, Handler::Urban);
    assert(registry@ =~= standard_surface().take(6));

    let mut options: Vec<OptionSpec> = Vec::new();
    assert(option_spec_views(options@) =~= Seq::<OptionSpecView>::empty());
    declare(&mut options, "query", OptionKind::String, true);
    declare(&mut options, "use_default_prompt", OptionKind::Boolean, false);
    proof {
        assert(option_spec_views(options@) =~= seq![
            option("query"@, OptionKind::String, true),
            option("use_default_prompt"@, OptionKind::Boolean, false),
        ]);
        lemma_name_is_fresh(standard_surface(), 6);
    }
    enter(&mut registry, "ask", "Ask me anything!", options, Handler::Ask);
    assert(registry@ =~= standard_surface().take(7));

    let mut options: Vec<OptionSpec> = Vec::new();
    assert(option_spec_views(options@) =~= Seq::<OptionSpecView>::empty());
    declare(&mut options, "url", OptionKind::String, true);
    declare(&mut options, "clip_start", OptionKind::String, false);
    declare(&mut options, "clip_end", OptionKind::String, false);
    declare(&mut options, "format", OptionKind::String, false);
    proof {
        assert(option_spec_views(options@) =~= seq![
            option("url"@, OptionKind::String, true),
            option("clip_start"@, OptionKind::String, false),
            option("clip_end"@, OptionKind::String, false),
            option("format"@, OptionKind::String, false),
        ]);
        lemma_name_is_fresh(standard_surface(), 7);
    }
    enter(&mut registry, "save", "Saves video from URL", options, Handler::Save);
    assert(registry@ =~= standard_surface().take(8));

    let mut options: Vec<OptionSpec> = Vec::new();
    assert(option_spec_views(options@) =~= Seq::<OptionSpecView>::empty());
    declare(&mut options, "colour_code", OptionKind::String, true);
    proof {
        lemma_name_is_fresh(standard_surface(), 8);
    }
    enter(&mut registry, "setcolour", "Sets your discord name colour :)", options, Handler::SetColour);
    assert(registry@ =~= standard_surface().take(9));

    let mut options: Vec<OptionSpec> = Vec::new();
    assert(option_spec_views(options@) =~= Seq::<OptionSpecView>::empty());
    declare(&mut options, "location", OptionKind::String, true);
    proof {
        lemma_name_is_fresh(standard_surface(), 9);
    }
    enter(&mut registry, "time", "Check the time for a location.", options, Handler::Time);
    assert(registry@ =~= standard_surface().take(10));

    let mut options: Vec<OptionSpec> = Vec::new();
    assert(option_spec_views(options@) =~= Seq::<OptionSpecView>::empty());
    declare(&mut options, "msg", OptionKind::String, true);
    proof {
        lemma_name_is_fresh(standard_surface(), 10);
    }
    enter(&mut registry, "translate", "", options, Handler::Translate);
    assert(registry@ =~= standard_surface().take(11));

    let mut options: Vec<OptionSpec> = Vec::new();
    assert(option_spec_views(options@) =~= Seq::<OptionSpecView>::empty());
    proof {
        lemma_name_is_fresh(standard_surface(), 11);
    }
    enter(&mut registry, "tldrify", "", options, Handler::Tldrify);
    assert(registry@ =~= standard_surface().take(12));

    let mut options: Vec<OptionSpec> = Vec::new();
    assert(option_spec_views(options@) =~= Seq::<OptionSpecView>::empty());
    declare(&mut options, "link", OptionKind::String, true);
    proof {
        lemma_name_is_fresh(standard_surface(), 12);
    }
    enter(&mut registry, "tldrify link", "", options, Handler::TldrifyLink);
    assert(registry@ =~= standard_surface().take(13));

    let mut options: Vec<OptionSpec> = Vec::new();
    assert(option_spec_views(options@) =~= Seq::<OptionSpecView>::empty());
    declare(&mut options, "msg", OptionKind::String, true);
    proof {
        lemma_name_is_fresh(standard_surface(), 13);
    }
    enter(&mut registry, "tldrify message", "", options, Handler::TldrifyMessage);
    assert(registry@ =~= standard_surface().take(14));

    let mut options: Vec<OptionSpec> = Vec::new();
    assert(option_spec_views(options@) =~= Seq::<OptionSpecView>::empty());
    proof {
        lemma_name_is_fresh(standard_surface(), 14);
    }
    enter(&mut registry, "prompt", "Manage your custom system prompt", options, Handler::Prompt);
    assert(registry@ =~= standard_surface().take(15));

    let mut options: Vec<OptionSpec> = Vec::new();
    assert(option_spec_views(options@) =~= Seq::<OptionSpecView>::empty());
    declare(&mut options, "prompt", OptionKind::String, true);
    proof {
        lemma_name_is_fresh(standard_surface(), 15);
    }
    enter(&mut registry, "prompt set", "Set your custom system prompt", options, Handler::PromptSet);
    assert(registry@ =~= standard_surface().take(16));

    let mut options: Vec<OptionSpec> = Vec::new();
    assert(option_spec_views(options@) =~= Seq::<OptionSpecView>::empty());
    proof {
        lemma_name_is_fresh(standard_surface(), 16);
    }
    enter(&mut registry, "prompt get", "Get your current custom system prompt", options, Handler::PromptGet);
    assert(registry@ =~= standard_surface().take(17));

    assert(standard_surface().take(17) =~= standard_surface());
    registry
}

} // verus!
