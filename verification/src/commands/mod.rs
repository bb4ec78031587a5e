pub mod ask;
pub mod avatar;
pub mod cat;
pub mod dog;
pub mod eightball;
pub mod help;
pub mod prompt;
pub mod save;
pub mod setcolour;
pub mod time;
pub mod tldrify;
pub mod translate;
pub mod urban;

pub use ask::{ask, AskAction, AskEvent, AskState};
pub use avatar::avatar;
pub use cat::cat;
pub use dog::dog;
pub use eightball::eightball;
pub use help::{get_command_help, help};
pub use prompt::{get, prompt};
pub use save::{
    clip_arguments, convert_arguments, convert_outcome, download_arguments, download_outcome,
    format_timestamp, save, SaveAction, SaveEvent, SaveState, ToolFailure,
};
pub use setcolour::{begin_setcolour, decide_colour, send_embed, setcolour};
pub use time::time;
pub use tldrify::{article_text, create_embed, link, message, tldr_query, tldrify};
pub use translate::translate;
pub use urban::urban;
