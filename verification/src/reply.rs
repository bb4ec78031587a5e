//! What a command answers: plain text, an embed or a file.

use vstd::prelude::*;

verus! {

/// The line at the foot of every embed the bot sends.
pub const FOOTER: &'static str = "Powered by Maxine";

/// The characters of an optional string.
pub open spec fn opt_str(o: Option<String>) -> Option<Seq<char>> {
    match o {
        Some(s) => Some(s@),
        None => None,
    }
}

/// A titled value inside an embed.
#[derive(Debug, PartialEq, Eq)]
pub struct EmbedField {
    pub name: String,
    pub value: String,
    pub inline: bool,
}

/// An embed field as plain values.
pub struct EmbedFieldView {
    pub name: Seq<char>,
    pub value: Seq<char>,
    pub inline: bool,
}

impl View for EmbedField {
    type V = EmbedFieldView;

    open spec fn view(&self) -> EmbedFieldView {
        EmbedFieldView { name: self.name@, value: self.value@, inline: self.inline }
    }
}

/// The views of a sequence of fields, in order.
pub open spec fn field_views(fields: Seq<EmbedField>) -> Seq<EmbedFieldView> {
    Seq::new(fields.len(), |i: int| fields[i]@)
}

/// A framed message with a title, a text, an image and titled fields.
#[derive(Debug, PartialEq, Eq)]
pub struct Embed {
    pub title: Option<String>,
    pub description: Option<String>,
    pub image: Option<String>,
    pub fields: Vec<EmbedField>,
    pub footer: Option<String>,
    pub colour: Option<u32>,
}

/// An embed as plain values.
pub struct EmbedView {
    pub title: Option<Seq<char>>,
    pub description: Option<Seq<char>>,
    pub image: Option<Seq<char>>,
    pub fields: Seq<EmbedFieldView>,
    pub footer: Option<Seq<char>>,
    pub colour: Option<u32>,
}

impl View for Embed {
    type V = EmbedView;

    open spec fn view(&self) -> EmbedView {
        EmbedView {
            title: opt_str(self.title),
            description: opt_str(self.description),
            image: opt_str(self.image),
            fields: field_views(self.fields@),
            footer: opt_str(self.footer),
            colour: self.colour,
        }
    }
}

impl EmbedView {
    /// The embed with nothing set.
    pub open spec fn empty() -> EmbedView {
        EmbedView {
            title: None,
            description: None,
            image: None,
            fields: Seq::empty(),
            footer: None,
            colour: None,
        }
    }

    /// The same embed with its title set.
    pub open spec fn title(self, title: Seq<char>) -> EmbedView {
        EmbedView {
            title: Some(title),
            description: self.description,
            image: self.image,
            fields: self.fields,
            footer: self.footer,
            colour: self.colour,
        }
    }

    /// The same embed with its text set.
    pub open spec fn description(self, description: Seq<char>) -> EmbedView {
        EmbedView {
            title: self.title,
            description: Some(description),
            image: self.image,
            fields: self.fields,
            footer: self.footer,
            colour: self.colour,
        }
    }

    /// The same embed with its image set.
    pub open spec fn image(self, url: Seq<char>) -> EmbedView {
        EmbedView {
            title: self.title,
            description: self.description,
            image: Some(url),
            fields: self.fields,
            footer: self.footer,
            colour: self.colour,
        }
    }

    /// The same embed with one more field after those it has.
    pub open spec fn field(self, name: Seq<char>, value: Seq<char>, inline: bool) -> EmbedView {
        EmbedView {
            title: self.title,
            description: self.description,
            image: self.image,
            fields: self.fields.push(EmbedFieldView { name, value, inline }),
            footer: self.footer,
            colour: self.colour,
        }
    }

    /// The same embed with its foot line set.
    pub open spec fn footer(self, text: Seq<char>) -> EmbedView {
        EmbedView {
            title: self.title,
            description: self.description,
            image: self.image,
            fields: self.fields,
            footer: Some(text),
            colour: self.colour,
        }
    }

    /// The same embed with its colour set.
    pub open spec fn colour(self, colour: u32) -> EmbedView {
        EmbedView {
            title: self.title,
            description: self.description,
            image: self.image,
            fields: self.fields,
            footer: self.footer,
            colour: Some(colour),
        }
    }
}

impl Embed {
    /// An embed with nothing set.
    pub fn new() -> (e: Embed)
        ensures
            e@ == EmbedView::empty(),
    {
        let e = Embed {
            title: None,
            description: None,
            image: None,
            fields: Vec::new(),
            footer: None,
            colour: None,
        };
        assert(e@.fields =~= Seq::empty());
        e
    }

    /// The same embed with its title set.
    pub fn title(self, title: &str) -> (e: Embed)
        ensures
            e@ == self@.title(title@),
    {
        Embed {
            title: Some(String::from_str(title)),
            description: self.description,
            image: self.image,
            fields: self.fields,
            footer: self.footer,
            colour: self.colour,
        }
    }

    /// The same embed with its text set.
    pub fn description(self, description: &str) -> (e: Embed)
        ensures
            e@ == self@.description(description@),
    {
        Embed {
            title: self.title,
            description: Some(String::from_str(description)),
            image: self.image,
            fields: self.fields,
            footer: self.footer,
            colour: self.colour,
        }
    }

    /// The same embed with its image set.
    pub fn image(self, url: &str) -> (e: Embed)
        ensures
            e@ == self@.image(url@),
    {
        Embed {
            title: self.title,
            description: self.description,
            image: Some(String::from_str(url)),
            fields: self.fields,
            footer: self.footer,
            colour: self.colour,
        }
    }

    /// The same embed with one more field after those it has.
    pub fn field(self, name: &str, value: &str, inline: bool) -> (e: Embed)
        ensures
            e@ == self@.field(name@, value@, inline),
    {
        let mut fields = self.fields;
        let ghost before = fields@;
        fields.push(EmbedField { name: String::from_str(name), value: String::from_str(value), inline });
        assert(field_views(fields@) =~= field_views(before).push(
            EmbedFieldView { name: name@, value: value@, inline },
        ));
        Embed {
            title: self.title,
            description: self.description,
            image: self.image,
            fields,
            footer: self.footer,
            colour: self.colour,
        }
    }

    /// The same embed with its foot line set.
    pub fn footer(self, text: &str) -> (e: Embed)
        ensures
            e@ == self@.footer(text@),
    {
        Embed {
            title: self.title,
            description: self.description,
            image: self.image,
            fields: self.fields,
            footer: Some(String::from_str(text)),
            colour: self.colour,
        }
    }

    /// The same embed with its colour set.
    pub fn colour(self, colour: u32) -> (e: Embed)
        ensures
            e@ == self@.colour(colour),
    {
        Embed {
            title: self.title,
            description: self.description,
            image: self.image,
            fields: self.fields,
            footer: self.footer,
            colour: Some(colour),
        }
    }
}

/// What is sent back for a request.
#[derive(Debug, PartialEq, Eq)]
pub enum Reply {
    /// A plain message.
    Text(String),
    /// A plain message that quotes the request it answers.
    Quote(String),
    /// An embed.
    Embed(Embed),
    /// The file at this path, attached.
    File(String),
}

/// A reply as plain values.
pub enum ReplyView {
    Text(Seq<char>),
    Quote(Seq<char>),
    Embed(EmbedView),
    File(Seq<char>),
}

impl View for Reply {
    type V = ReplyView;

    open spec fn view(&self) -> ReplyView {
        match self {
            Reply::Text(s) => ReplyView::Text(s@),
            Reply::Quote(s) => ReplyView::Quote(s@),
            Reply::Embed(e) => ReplyView::Embed(e@),
            Reply::File(p) => ReplyView::File(p@),
        }
    }
}

impl Reply {
    /// A plain message with this text.
    pub fn text(content: &str) -> (r: Reply)
        ensures
            r@ == ReplyView::Text(content@),
    {
        Reply::Text(String::from_str(content))
    }

    /// A plain message with this text that quotes the request.
    pub fn quote(content: &str) -> (r: Reply)
        ensures
            r@ == ReplyView::Quote(content@),
    {
        Reply::Quote(String::from_str(content))
    }
}

} // verus!
