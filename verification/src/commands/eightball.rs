//! The magic 8ball: one of a fixed set of answers, drawn at random.

use crate::reply::{Embed, EmbedView, Reply, ReplyView, FOOTER};
use vstd::prelude::*;

verus! {

pub const EIGHTBALL_TITLE: &'static str = "Magic 8ball";

pub const ASKED: &'static str = " asked";

pub const SAYS: &'static str = "The 8ball says";

/// What the 8ball says where nothing could be drawn.
pub const TRY_LATER: &'static str = "Try again later";

/// The answers of the 8ball.
pub open spec fn responses() -> Seq<Seq<char>> {
    seq![
        "It is certain"@,
        "Without a doubt"@,
        "Definitely"@,
        "Most likely"@,
        "Outlook good"@,
        "Yes!"@,
        "Try again"@,
        "Reply hazy"@,
        "Can't predict"@,
        "No!"@,
        "Unlikely"@,
        "Sources say no"@,
        "Very doubtful"@,
    ]
}

/// The views of a sequence of texts, in order.
pub open spec fn text_views(texts: Seq<&'static str>) -> Seq<Seq<char>> {
    Seq::new(texts.len(), |i: int| texts[i]@)
}

/// The answers of the 8ball.
pub fn eightball_responses() -> (all: Vec<&'static str>)
    ensures
        text_views(all@) == responses(),
        all.len() == 13,
{
    let mut all: Vec<&'static str> = Vec::new();
    all.push("It is certain");
    all.push("Without a doubt");
    all.push("Definitely");
    all.push("Most likely");
    all.push("Outlook good");
    all.push("Yes!");
    all.push("Try again");
    all.push("Reply hazy");
    all.push("Can't predict");
    all.push("No!");
    all.push("Unlikely");
    all.push("Sources say no");
    all.push("Very doubtful");
    assert(text_views(all@) =~= responses());
    all
}

/// Calls `rand::seq::IndexedRandom::choose` on the texts with the
/// generator of the thread. It gives nothing for no texts, and else one of
/// the texts; which one is left open.
#[verifier::external_body]
fn draw(texts: &Vec<&'static str>) -> (r: Option<&'static str>)
    ensures
        texts@.len() == 0 ==> r is None,
        texts@.len() > 0 ==> r is Some,
        r matches Some(text) ==> texts@.contains(text),
{
    rand::seq::IndexedRandom::choose(texts.as_slice(), &mut rand::rng()).copied()
}

/// What the 8ball says for what was drawn.
pub open spec fn said(drawn: Option<Seq<char>>) -> Seq<char> {
    match drawn {
        Some(text) => text,
        None => TRY_LATER@,
    }
}

/// The answer of the 8ball to `question` of the user `name`.
pub open spec fn eightball_embed(name: Seq<char>, question: Seq<char>, answer: Seq<char>) -> EmbedView {
    EmbedView::empty().title(EIGHTBALL_TITLE@).field(name + ASKED@, question, false).field(
        SAYS@,
        answer,
        false,
    ).footer(FOOTER@)
}

/// Makes the answer of the 8ball to `question` of the user `name` out of
/// what was drawn.
pub fn eightball_reply(name: &str, question: &str, drawn: Option<&str>) -> (r: Reply)
    ensures
        r@ == ReplyView::Embed(
            eightball_embed(
                name@,
                question@,
                said(
                    match drawn {
                        Some(text) => Some(text@),
                        None => None,
                    },
                ),
            ),
        ),
{
    let answer = match drawn {
        Some(text) => text,
        None => TRY_LATER,
    };
    let mut asked = String::from_str(name);
    asked.append(ASKED);
    Reply::Embed(
        Embed::new().title(EIGHTBALL_TITLE).field(asked.as_str(), question, false).field(
            SAYS,
            answer,
            false,
        ).footer(FOOTER),
    )
}

/// Answers `question` of the user `name` with one of the answers of the
/// 8ball, drawn at random; each call draws anew.
pub fn eightball(name: &str, question: &str) -> (r: Reply)
    ensures
        exists|i: int|
            0 <= i < responses().len() && r@ == ReplyView::Embed(
                eightball_embed(name@, question@, #[trigger] responses()[i]),
            ),
{
    let all = eightball_responses();
    let drawn = draw(&all);
    proof {
        let text = drawn->0;
        let i = choose|i: int| 0 <= i < all@.len() && all@[i] == text;
        assert(text_views(all@)[i] == text@);
        assert(responses()[i] == text@);
    }
    eightball_reply(name, question, drawn)
}

} // verus!
