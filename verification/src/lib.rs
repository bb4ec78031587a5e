use vstd::prelude::*;

pub mod commands;
pub mod config;
pub mod events;
pub mod guild;
pub mod llm;
pub mod page;
pub mod registry;
pub mod reply;
pub mod request;
pub mod summarize;
pub mod surface;
pub mod text;
pub mod util;
