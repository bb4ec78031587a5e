//! The help of the bot: the overview of all commands, and the text that
//! explains one of them.

use crate::reply::{Embed, EmbedView, Reply, ReplyView, FOOTER};
use crate::text::{lowercase_of, same_text, to_lowercase};
use vstd::prelude::*;

verus! {

pub const HELP_ASK: &'static str =
    "**Ask me anything!**\n\nUsage: `/ask <your question>`\n\nThis command uses AI to answer your questions. You can also use `/ask <question> <use_default_prompt>` to use the default system prompt instead of your custom one.\n\nExample: `/ask What is the capital of France?`";

pub const HELP_TRANSLATE: &'static str =
    "**Translate messages to English**\n\nUsage: Right-click on a message → Apps → Translate to English\n\nThis command automatically detects the language of a message and translates it to English using AI.\n\nNote: This is a context menu command, not a slash command.";

pub const HELP_TLDRIFY: &'static str =
    "**Create TLDR summaries**\n\nUsage: Right-click on a message → Apps → Create TLDR\n\nThis command creates a concise summary of any message using AI.\n\nNote: This is a context menu command, not a slash command.";

pub const HELP_PROMPT: &'static str =
    "**Manage your custom AI prompt**\n\nUsage:\n• `/prompt set <your custom prompt>` - Set your custom system prompt\n• `/prompt get` - View your current custom prompt\n\nThis allows you to customize how the AI responds to your questions.";

pub const HELP_AVATAR: &'static str =
    "**Show user avatars**\n\nUsage: `/avatar [user]`\n\nDisplays the avatar of yourself or another user. If no user is specified, shows your own avatar.\n\nExample: `/avatar @username`";

pub const HELP_CAT: &'static str =
    "**Get random cat images**\n\nUsage: `/cat`\n\nFetches a random cat image from The Cat API.\n\nExample: `/cat`";

pub const HELP_DOG: &'static str =
    "**Get random dog images**\n\nUsage: `/dog`\n\nFetches a random dog image from an API.\n\nExample: `/dog`";

pub const HELP_EIGHTBALL: &'static str =
    "**Ask the magic 8ball**\n\nUsage: `/8ball <question>`\n\nGets a random response from the magic 8ball.\n\nExample: `/8ball Will it rain today?`";

pub const HELP_URBAN: &'static str =
    "**Look up Urban Dictionary definitions**\n\nUsage: `/urban <term>`\n\nSearches Urban Dictionary for definitions of terms.\n\nExample: `/urban yeet`";

pub const HELP_TIME: &'static str =
    "**Check time for any location**\n\nUsage: `/time <location>`\n\nGets the current time for any city or location.\n\nExample: `/time New York`";

pub const HELP_SAVE: &'static str =
    "**Download and save videos**\n\nUsage: `/save <url> [start_time] [end_time] [format]`\n\nDownloads videos from URLs and optionally clips them. Supports various formats including MP4, GIF, and WebM.\n\nParameters:\n• `url` - The video URL to download\n• `start_time` - Start of clip (HH:MM:SS format)\n• `end_time` - End of clip (HH:MM:SS format)\n• `format` - Output format (mp4, gif, webm)\n\nExample: `/save https://example.com/video.mp4 00:10 00:20 gif`";

pub const HELP_SETCOLOUR: &'static str =
    "**Set your Discord name color**\n\nUsage: `/setcolour <color>`\n\nChanges your Discord name color. You can use color names or hex codes.\n\nExample: `/setcolour blue` or `/setcolour #FF0000`";

pub const HELP_UNKNOWN: &'static str =
    "Command not found. Use `/help` to see all available commands.";

pub const OVERVIEW_TITLE: &'static str = "Maxine Bot Commands";

pub const OVERVIEW_TEXT: &'static str = "Here are all the available commands:";

pub const HELP_TITLE: &'static str = "Help: /";

pub const SECTION_AI: &'static str = "🤖 AI & Language Commands";

pub const SECTION_AI_TEXT: &'static str =
    "• `/ask` - Ask me anything using AI\n• `/translate` - Translate messages to English\n• `/tldrify` - Create TLDR summaries\n• `/prompt` - Manage your custom AI prompt";

pub const SECTION_FUN: &'static str = "🎨 Fun & Utility Commands";

pub const SECTION_FUN_TEXT: &'static str =
    "• `/avatar` - Show user avatars\n• `/cat` - Get random cat images\n• `/dog` - Get random dog images\n• `/8ball` - Ask the magic 8ball\n• `/urban` - Look up Urban Dictionary definitions";

pub const SECTION_MEDIA: &'static str = "⏰ Time & Media Commands";

pub const SECTION_MEDIA_TEXT: &'static str =
    "• `/time` - Check time for any location\n• `/save` - Download and save videos from URLs";

pub const SECTION_CUSTOM: &'static str = "🎨 Customization Commands";

pub const SECTION_CUSTOM_TEXT: &'static str =
    "• `/setcolour` - Set your Discord name color";

pub const SECTION_TIPS: &'static str = "💡 Usage Tips";

pub const SECTION_TIPS_TEXT: &'static str =
    "• Use `/help <command>` for detailed help on a specific command\n• Most commands work with both slash commands and prefix commands\n• Context menu commands are available for translate and tldrify";

/// The help text that belongs to a command name written in lower case.
pub open spec fn help_text(name: Seq<char>) -> Seq<char> {
    if name == "ask"@ {
        HELP_ASK@
    }     else if name == "translate"@ {
        HELP_TRANSLATE@
    }     else if name == "tldrify"@ {
        HELP_TLDRIFY@
    }     else if name == "prompt"@ {
        HELP_PROMPT@
    }     else if name == "avatar"@ {
        HELP_AVATAR@
    }     else if name == "cat"@ {
        HELP_CAT@
    }     else if name == "dog"@ {
        HELP_DOG@
    }     else if name == "8ball"@ {
        HELP_EIGHTBALL@
    }     else if name == "urban"@ {
        HELP_URBAN@
    }     else if name == "time"@ {
        HELP_TIME@
    }     else if name == "save"@ {
        HELP_SAVE@
    }     else if name == "setcolour"@ {
        HELP_SETCOLOUR@
    } else {
        HELP_UNKNOWN@
    }
}

/// The help text for a command name that is already in lower case; an
/// unknown name gets a text that says so.
pub fn command_help(name: &str) -> (r: String)
    ensures
        r@ == help_text(name@),
{
    if same_text(name, "ask") {
        String::from_str(HELP_ASK)
    }     else if same_text(name, "translate") {
        String::from_str(HELP_TRANSLATE)
    }     else if same_text(name, "tldrify") {
        String::from_str(HELP_TLDRIFY)
    }     else if same_text(name, "prompt") {
        String::from_str(HELP_PROMPT)
    }     else if same_text(name, "avatar") {
        String::from_str(HELP_AVATAR)
    }     else if same_text(name, "cat") {
        String::from_str(HELP_CAT)
    }     else if same_text(name, "dog") {
        String::from_str(HELP_DOG)
    }     else if same_text(name, "8ball") {
        String::from_str(HELP_EIGHTBALL)
    }     else if same_text(name, "urban") {
        String::from_str(HELP_URBAN)
    }     else if same_text(name, "time") {
        String::from_str(HELP_TIME)
    }     else if same_text(name, "save") {
        String::from_str(HELP_SAVE)
    }     else if same_text(name, "setcolour") {
        String::from_str(HELP_SETCOLOUR)
    } else {
        String::from_str(HELP_UNKNOWN)
    }
}

/// The help text for `command`, in whatever case it is written.
pub fn get_command_help(command: &str) -> (r: String)
    ensures
        r@ == help_text(lowercase_of(command@)),
{
    let lowered = to_lowercase(command);
    command_help(lowered.as_str())
}

/// The overview of all commands.
pub open spec fn overview_embed() -> EmbedView {
    EmbedView::empty().title(OVERVIEW_TITLE@).description(OVERVIEW_TEXT@).field(
        SECTION_AI@,
        SECTION_AI_TEXT@,
        false,
    ).field(SECTION_FUN@, SECTION_FUN_TEXT@, false).field(
        SECTION_MEDIA@,
        SECTION_MEDIA_TEXT@,
        false,
    ).field(SECTION_CUSTOM@, SECTION_CUSTOM_TEXT@, false).field(
        SECTION_TIPS@,
        SECTION_TIPS_TEXT@,
        false,
    ).footer(FOOTER@)
}

/// The help for the command `name`, whose help text is `text`.
pub open spec fn command_embed(name: Seq<char>, text: Seq<char>) -> EmbedView {
    EmbedView::empty().title(HELP_TITLE@ + name).description(text).footer(FOOTER@)
}

/// What `help` answers: the overview where no command is named, else the
/// help for the command under its name as it was written.
pub open spec fn help_embed(command: Option<Seq<char>>) -> EmbedView {
    match command {
        Some(name) => command_embed(name, help_text(lowercase_of(name))),
        None => overview_embed(),
    }
}

/// Answers a request for help: with the overview of all commands, or with
/// the help for the one command that is named.
pub fn help(command: Option<&str>) -> (r: Reply)
    ensures
        r@ == ReplyView::Embed(
            help_embed(
                match command {
                    Some(name) => Some(name@),
                    None => None,
                },
            ),
        ),
{
    match command {
        Some(name) => {
            let text = get_command_help(name);
            let mut title = String::from_str(HELP_TITLE);
            title.append(name);
            Reply::Embed(
                Embed::new().title(title.as_str()).description(text.as_str()).footer(FOOTER),
            )
        },
        None => Reply::Embed(
            Embed::new().title(OVERVIEW_TITLE).description(OVERVIEW_TEXT).field(
                SECTION_AI,
                SECTION_AI_TEXT,
                false,
            ).field(SECTION_FUN, SECTION_FUN_TEXT, false).field(
                SECTION_MEDIA,
                SECTION_MEDIA_TEXT,
                false,
            ).field(SECTION_CUSTOM, SECTION_CUSTOM_TEXT, false).field(
                SECTION_TIPS,
                SECTION_TIPS_TEXT,
                false,
            ).footer(FOOTER),
        ),
    }
}

} // verus!
