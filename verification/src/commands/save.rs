//! Saving a video: what the downloader and the transcoder are asked, and
//! what is cleaned up afterwards.

use crate::request::{HandlerEvent, HandlerEventView};
use crate::reply::{Reply, ReplyView};
use crate::text::{
    contains, join, join_with, occurs_in, push_all, push_text, same_text, split, split_on,
    split_whitespace, strs, words,
};
use vstd::prelude::*;

verus! {

/// A piece of a timestamp, filled from the left with `0` to two characters.
pub open spec fn pad2(piece: Seq<char>) -> Seq<char> {
    if piece.len() >= 2 {
        piece
    } else if piece.len() == 1 {
        seq!['0'] + piece
    } else {
        seq!['0', '0']
    }
}

/// Each piece filled to two characters.
pub open spec fn pad_all(pieces: Seq<Seq<char>>) -> Seq<Seq<char>> {
    Seq::new(pieces.len(), |i: int| pad2(pieces[i]))
}

/// A timestamp with each piece between colons filled to two characters.
pub open spec fn normalized_timestamp(ts: Seq<char>) -> Seq<char> {
    join_with(pad_all(split_on(ts, ':')), seq![':'])
}

/// Fills `piece` from the left with `0` to two characters.
pub fn pad_piece(piece: &str) -> (r: String)
    ensures
        r@ == pad2(piece@),
{
    let n = piece.unicode_len();
    proof {
        reveal_strlit("0");
        reveal_strlit("00");
    }
    if n >= 2 {
        String::from_str(piece)
    } else if n == 1 {
        let mut r = String::from_str("0");
        r.append(piece);
        assert("0"@ =~= seq!['0']);
        r
    } else {
        let r = String::from_str("00");
        assert("00"@ =~= seq!['0', '0']);
        r
    }
}

/// Brings a clip time such as `0:5` to the form `00:05`: every piece between
/// colons is filled from the left with `0` to two characters, and longer
/// pieces stay as they are.
pub fn format_timestamp(ts: &str) -> (r: String)
    ensures
        r@ == normalized_timestamp(ts@),
{
    let pieces = split(ts, ':');
    let mut padded: Vec<String> = Vec::new();
    let mut i: usize = 0;
    while i < pieces.len()
        invariant
            i <= pieces.len(),
            padded.len() == i,
            strs(padded@) == pad_all(strs(pieces@).take(i as int)),
        decreases pieces.len() - i,
    {
        let p = pad_piece(pieces[i].as_str());
        let ghost before = padded@;
        padded.push(p);
        proof {
            let done = pad_all(strs(pieces@).take(i as int));
            let next = pad_all(strs(pieces@).take(i + 1));
            assert forall|j: int| 0 <= j < i + 1 implies strs(padded@)[j] == next[j] by {
                if j < i {
                    assert(strs(before)[j] == done[j]);
                }
            }
            assert(strs(padded@) =~= next);
        }
        i += 1;
    }
    proof {
        assert(strs(pieces@).take(pieces.len() as int) == strs(pieces@));
        reveal_strlit(":");
        assert(":"@ =~= seq![':']);
    }
    join(&padded, ":")
}

/// The program that downloads videos.
pub const DOWNLOADER: &'static str = "yt-dlp";

/// The program that converts videos.
pub const TRANSCODER: &'static str = "ffmpeg";

/// The formats the downloader is to prefer, best first.
pub const FORMAT_SELECTOR: &'static str =
    "bv*[ext=mp4][vcodec=h264]+ba[ext=m4a]/b[ext=mp4][vcodec=h264]/bv[vcodec=h264]+ba/bv+ba/b";

/// The header that makes hosts hand out their videos.
pub const USER_AGENT_HEADER: &'static str = "User-Agent:facebookexternalhit/1.1";

/// The host that is asked without that header.
pub const PLAIN_HOST: &'static str = "reddit.com";

/// The format a video has unless another is asked for.
pub const DEFAULT_FORMAT: &'static str = "mp4";

pub const DOWNLOAD_FAILED: &'static str = "Failed to download video: ";

pub const CONVERT_FAILED: &'static str = "Failed to convert video: ";

pub const DOWNLOAD_ERROR: &'static str = "Error downloading video: ";

pub const CONVERT_ERROR: &'static str = "Error converting video: ";

/// The arguments the downloader is run with to bring the video at `url` to
/// the file `output`.
pub open spec fn download_args(url: Seq<char>, output: Seq<char>, show_warnings: bool) -> Seq<
    Seq<char>,
> {
    seq![
        url,
        "-o"@,
        output,
        "-f"@,
        FORMAT_SELECTOR@,
        "--compat-opt"@,
        "prefer-vp9-sort"@,
        "--no-check-certificate"@,
    ] + (if occurs_in(url, PLAIN_HOST@) {
        Seq::empty()
    } else {
        seq!["--add-header"@, USER_AGENT_HEADER@]
    }) + (if show_warnings {
        Seq::empty()
    } else {
        seq!["--no-warnings"@]
    })
}

/// The arguments the downloader is run with to bring the video at `url` to
/// the file `output`. The user agent header is left out for the one host
/// that is asked without it.
pub fn download_arguments(url: &str, output: &str, show_warnings: bool) -> (args: Vec<String>)
    ensures
        strs(args@) == download_args(url@, output@, show_warnings),
{
    let mut args: Vec<String> = Vec::new();
    assert(strs(args@) =~= Seq::<Seq<char>>::empty());
    push_text(&mut args, url);
    push_text(&mut args, "-o");
    push_text(&mut args, output);
    push_text(&mut args, "-f");
    push_text(&mut args, FORMAT_SELECTOR);
    push_text(&mut args, "--compat-opt");
    push_text(&mut args, "prefer-vp9-sort");
    push_text(&mut args, "--no-check-certificate");
    if !contains(url, PLAIN_HOST) {
        push_text(&mut args, "--add-header");
        push_text(&mut args, USER_AGENT_HEADER);
    }
    if !show_warnings {
        push_text(&mut args, "--no-warnings");
    }
    assert(strs(args@) =~= download_args(url@, output@, show_warnings));
    args
}

/// Why a run of a tool gave no file, and the file it left behind, if it
/// left one.
#[derive(Debug, PartialEq, Eq)]
pub struct ToolFailure {
    pub why: String,
    pub leftover: Option<String>,
}

/// A tool failure as plain values.
pub struct ToolFailureView {
    pub why: Seq<char>,
    pub leftover: Option<Seq<char>>,
}

impl View for ToolFailure {
    type V = ToolFailureView;

    open spec fn view(&self) -> ToolFailureView {
        ToolFailureView {
            why: self.why@,
            leftover: match self.leftover {
                Some(path) => Some(path@),
                None => None,
            },
        }
    }
}

/// The view of what a run of a tool came to.
pub open spec fn run_view(r: Result<String, ToolFailure>) -> Result<Seq<char>, ToolFailureView> {
    match r {
        Ok(path) => Ok(path@),
        Err(failure) => Err(failure@),
    }
}

/// What a run of a tool comes to. It gave the file `output` exactly if it
/// ended well and the file exists. Otherwise it failed with `lead` and
/// what it wrote to its error stream, and the file is left over if it
/// exists.
pub open spec fn run_result(
    lead: Seq<char>,
    success: bool,
    exists: bool,
    stderr: Seq<char>,
    output: Seq<char>,
) -> Result<Seq<char>, ToolFailureView> {
    if success && exists {
        Ok(output)
    } else {
        Err(
            ToolFailureView {
                why: lead + stderr,
                leftover: if exists {
                    Some(output)
                } else {
                    None
                },
            },
        )
    }
}

/// Judges a run of a tool that was to make the file `output`.
pub fn run_outcome(lead: &str, success: bool, exists: bool, stderr: &str, output: &str) -> (r:
    Result<String, ToolFailure>)
    ensures
        run_view(r) == run_result(lead@, success, exists, stderr@, output@),
{
    if success && exists {
        Ok(String::from_str(output))
    } else {
        let mut why = String::from_str(lead);
        why.append(stderr);
        let leftover = if exists {
            Some(String::from_str(output))
        } else {
            None
        };
        Err(ToolFailure { why, leftover })
    }
}

/// What a run of the downloader comes to.
pub open spec fn download_result(
    success: bool,
    exists: bool,
    stderr: Seq<char>,
    output: Seq<char>,
) -> Result<Seq<char>, ToolFailureView> {
    run_result(DOWNLOAD_FAILED@, success, exists, stderr, output)
}

/// Judges a run of the downloader: it gave the file `output` if it ended
/// well and the file exists; otherwise it failed with what it wrote to its
/// error stream, and the file is left over if it exists all the same.
pub fn download_outcome(success: bool, exists: bool, stderr: &str, output: &str) -> (r: Result<
    String,
    ToolFailure,
>)
    ensures
        run_view(r) == download_result(success, exists, stderr@, output@),
{
    run_outcome(DOWNLOAD_FAILED, success, exists, stderr, output)
}

/// The video codec for a format.
pub open spec fn codec_for(format: Seq<char>) -> Seq<char> {
    if format == "gif"@ {
        "gif"@
    } else {
        "libx264"@
    }
}

/// The arguments the transcoder is run with to convert `input` to
/// `output` in `format`, with the words of `extra` between the input and
/// the output options.
pub open spec fn convert_args(
    input: Seq<char>,
    format: Seq<char>,
    extra: Option<Seq<char>>,
    output: Seq<char>,
) -> Seq<Seq<char>> {
    seq!["-i"@, input] + (match extra {
        Some(more) => words(more),
        None => Seq::empty(),
    }) + seq!["-c:v"@, codec_for(format), "-preset"@, "medium"@, "-y"@, output]
}

/// The arguments the transcoder is run with to convert `input` to
/// `output` in `format`.
pub fn convert_arguments(input: &str, format: &str, extra: Option<&str>, output: &str) -> (args:
    Vec<String>)
    ensures
        strs(args@) == convert_args(
            input@,
            format@,
            match extra {
                Some(more) => Some(more@),
                None => None,
            },
            output@,
        ),
{
    let mut args: Vec<String> = Vec::new();
    assert(strs(args@) =~= Seq::<Seq<char>>::empty());
    push_text(&mut args, "-i");
    push_text(&mut args, input);
    match extra {
        Some(more) => {
            push_all(&mut args, split_whitespace(more));
        },
        None => {},
    }
    push_text(&mut args, "-c:v");
    if same_text(format, "gif") {
        push_text(&mut args, "gif");
    } else {
        push_text(&mut args, "libx264");
    }
    push_text(&mut args, "-preset");
    push_text(&mut args, "medium");
    push_text(&mut args, "-y");
    push_text(&mut args, output);
    assert(strs(args@) =~= convert_args(
        input@,
        format@,
        match extra {
            Some(more) => Some(more@),
            None => None,
        },
        output@,
    ));
    args
}

/// What a run of the transcoder comes to.
pub open spec fn convert_result(
    success: bool,
    exists: bool,
    stderr: Seq<char>,
    output: Seq<char>,
) -> Result<Seq<char>, ToolFailureView> {
    run_result(CONVERT_FAILED@, success, exists, stderr, output)
}

/// Judges a run of the transcoder: it gave the file `output` if it ended
/// well and the file exists; otherwise it failed with what it wrote to its
/// error stream, and the file is left over if it exists all the same.
pub fn convert_outcome(success: bool, exists: bool, stderr: &str, output: &str) -> (r: Result<
    String,
    ToolFailure,
>)
    ensures
        run_view(r) == convert_result(success, exists, stderr@, output@),
{
    run_outcome(CONVERT_FAILED, success, exists, stderr, output)
}

/// The transcoder options that cut a clip from `start` to `end`.
pub open spec fn clip_range(start: Seq<char>, end: Seq<char>) -> Seq<char> {
    "-ss "@ + normalized_timestamp(start) + " -to "@ + normalized_timestamp(end)
}

/// The transcoder options that cut a clip from `start` to `end`, both
/// brought to the form with two characters in each piece.
pub fn clip_arguments(start: &str, end: &str) -> (r: String)
    ensures
        r@ == clip_range(start@, end@),
{
    let from = format_timestamp(start);
    let to = format_timestamp(end);
    let mut r = String::from_str("-ss ");
    r.append(from.as_str());
    r.append(" -to ");
    r.append(to.as_str());
    r
}

/// Where the saving of a video stands.
#[derive(Debug, PartialEq, Eq)]
pub enum SaveState {
    /// The download runs. `clip` holds the transcoder options for the clip
    /// that was asked for, if one was.
    Downloading { clip: Option<String>, format: String },
    /// The conversion of the downloaded file `first` runs.
    Converting { first: String },
    /// The file `last` is being sent; `first` is the downloaded file.
    Sending { first: String, last: String },
    /// All is done.
    Finished,
}

/// A save state as plain values.
pub enum SaveStateView {
    Downloading { clip: Option<Seq<char>>, format: Seq<char> },
    Converting { first: Seq<char> },
    Sending { first: Seq<char>, last: Seq<char> },
    Finished,
}

impl View for SaveState {
    type V = SaveStateView;

    open spec fn view(&self) -> SaveStateView {
        match self {
            SaveState::Downloading { clip, format } => SaveStateView::Downloading {
                clip: match clip {
                    Some(c) => Some(c@),
                    None => None,
                },
                format: format@,
            },
            SaveState::Converting { first } => SaveStateView::Converting { first: first@ },
            SaveState::Sending { first, last } => SaveStateView::Sending {
                first: first@,
                last: last@,
            },
            SaveState::Finished => SaveStateView::Finished,
        }
    }
}

/// What happened while a video was saved.
#[derive(Debug, PartialEq, Eq)]
pub enum SaveEvent {
    /// The download ended: with the file, or with a failure.
    Downloaded(Result<String, ToolFailure>),
    /// The conversion ended: with the file, or with a failure.
    Converted(Result<String, ToolFailure>),
    /// The file was sent, or could not be.
    Sent(Option<String>),
}

/// A save event as plain values.
pub enum SaveEventView {
    Downloaded(Result<Seq<char>, ToolFailureView>),
    Converted(Result<Seq<char>, ToolFailureView>),
    Sent(Option<Seq<char>>),
}

impl View for SaveEvent {
    type V = SaveEventView;

    open spec fn view(&self) -> SaveEventView {
        match self {
            SaveEvent::Downloaded(r) => SaveEventView::Downloaded(run_view(*r)),
            SaveEvent::Converted(r) => SaveEventView::Converted(run_view(*r)),
            SaveEvent::Sent(failure) => SaveEventView::Sent(
                match failure {
                    Some(why) => Some(why@),
                    None => None,
                },
            ),
        }
    }
}

/// What is to be done next while a video is saved.
#[derive(Debug, PartialEq, Eq)]
pub enum SaveAction {
    /// Download the video.
    Download,
    /// Convert `input` to `format` with the transcoder options `range`.
    Convert { input: String, format: String, range: String },
    /// Send `file` as an attachment.
    Send { file: String },
    /// Remove the files `remove`; the handler ends with `outcome`, or with
    /// nothing more to report where the file was sent.
    Finish { outcome: Option<HandlerEvent>, remove: Vec<String> },
    /// Nothing: the event did not belong to the state.
    Nothing,
}

/// A save action as plain values.
pub enum SaveActionView {
    Download,
    Convert { input: Seq<char>, format: Seq<char>, range: Seq<char> },
    Send { file: Seq<char> },
    Finish { outcome: Option<HandlerEventView>, remove: Seq<Seq<char>> },
    Nothing,
}

impl View for SaveAction {
    type V = SaveActionView;

    open spec fn view(&self) -> SaveActionView {
        match self {
            SaveAction::Download => SaveActionView::Download,
            SaveAction::Convert { input, format, range } => SaveActionView::Convert {
                input: input@,
                format: format@,
                range: range@,
            },
            SaveAction::Send { file } => SaveActionView::Send { file: file@ },
            SaveAction::Finish { outcome, remove } => SaveActionView::Finish {
                outcome: match outcome {
                    Some(e) => Some(e@),
                    None => None,
                },
                remove: strs(remove@),
            },
            SaveAction::Nothing => SaveActionView::Nothing,
        }
    }
}

/// The state in which saving begins. A clip is cut only where both its
/// start and its end are given.
pub open spec fn save_start(
    clip_start: Option<Seq<char>>,
    clip_end: Option<Seq<char>>,
    as_format: Option<Seq<char>>,
) -> SaveStateView {
    SaveStateView::Downloading {
        clip: match (clip_start, clip_end) {
            (Some(start), Some(end)) => Some(clip_range(start, end)),
            _ => None,
        },
        format: match as_format {
            Some(format) => format,
            None => DEFAULT_FORMAT@,
        },
    }
}

/// The files to remove at the end: `last`, and `first` where it is
/// another file.
pub open spec fn leftovers(first: Seq<char>, last: Seq<char>) -> Seq<Seq<char>> {
    if first == last {
        seq![last]
    } else {
        seq![last, first]
    }
}

/// The files to remove after a failure: the file that the failed run left
/// over, if it left one, and the file `first` that was there before, if one
/// was.
pub open spec fn remains(first: Option<Seq<char>>, leftover: Option<Seq<char>>) -> Seq<Seq<char>> {
    match (first, leftover) {
        (Some(before), Some(left)) => leftovers(before, left),
        (Some(before), None) => seq![before],
        (None, Some(left)) => seq![left],
        (None, None) => Seq::empty(),
    }
}

/// The answer that tells of a failure: `lead`, then why.
pub open spec fn failure_event(lead: Seq<char>, why: Seq<char>) -> HandlerEventView {
    HandlerEventView::Replied(ReplyView::Text(lead + why))
}

/// What follows `event` in `state`: the new state and what is to be done.
pub open spec fn save_step(state: SaveStateView, event: SaveEventView) -> (
    SaveStateView,
    SaveActionView,
) {
    match (state, event) {
        (
            SaveStateView::Downloading { clip, format },
            SaveEventView::Downloaded(result),
        ) => match result {
            Err(failure) => (
                SaveStateView::Finished,
                SaveActionView::Finish {
                    outcome: Some(failure_event(DOWNLOAD_ERROR@, failure.why)),
                    remove: remains(None, failure.leftover),
                },
            ),
            Ok(path) => match clip {
                Some(range) => (
                    SaveStateView::Converting { first: path },
                    SaveActionView::Convert { input: path, format, range },
                ),
                None => (
                    SaveStateView::Sending { first: path, last: path },
                    SaveActionView::Send { file: path },
                ),
            },
        },
        (SaveStateView::Converting { first }, SaveEventView::Converted(result)) => match result {
            Err(failure) => (
                SaveStateView::Finished,
                SaveActionView::Finish {
                    outcome: Some(failure_event(CONVERT_ERROR@, failure.why)),
                    remove: remains(Some(first), failure.leftover),
                },
            ),
            Ok(output) => (
                SaveStateView::Sending { first, last: output },
                SaveActionView::Send { file: output },
            ),
        },
        (SaveStateView::Sending { first, last }, SaveEventView::Sent(failure)) => (
            SaveStateView::Finished,
            SaveActionView::Finish {
                outcome: match failure {
                    Some(why) => Some(HandlerEventView::Failed(why)),
                    None => None,
                },
                remove: leftovers(first, last),
            },
        ),
        (other, _) => (other, SaveActionView::Nothing),
    }
}

/// The files to remove at the end: `last`, and `first` where it is
/// another file.
pub fn files_to_remove(first: &str, last: &str) -> (files: Vec<String>)
    ensures
        strs(files@) == leftovers(first@, last@),
{
    let mut files: Vec<String> = Vec::new();
    assert(strs(files@) =~= Seq::<Seq<char>>::empty());
    push_text(&mut files, last);
    if !same_text(first, last) {
        push_text(&mut files, first);
    }
    assert(strs(files@) =~= leftovers(first@, last@));
    files
}

/// The files to remove after a failure.
pub fn files_remaining(first: Option<&str>, leftover: &Option<String>) -> (files: Vec<String>)
    ensures
        strs(files@) == remains(
            match first {
                Some(before) => Some(before@),
                None => None,
            },
            match leftover {
                Some(left) => Some(left@),
                None => None,
            },
        ),
{
    match (first, leftover) {
        (Some(before), Some(left)) => files_to_remove(before, left.as_str()),
        (Some(before), None) => {
            let mut files: Vec<String> = Vec::new();
            assert(strs(files@) =~= Seq::<Seq<char>>::empty());
            push_text(&mut files, before);
            assert(strs(files@) =~= seq![before@]);
            files
        },
        (None, Some(left)) => {
            let mut files: Vec<String> = Vec::new();
            assert(strs(files@) =~= Seq::<Seq<char>>::empty());
            push_text(&mut files, left.as_str());
            assert(strs(files@) =~= seq![left@]);
            files
        },
        (None, None) => {
            let files: Vec<String> = Vec::new();
            assert(strs(files@) =~= Seq::<Seq<char>>::empty());
            files
        },
    }
}

/// The answer that tells of a failure: `lead`, then why.
pub fn failure(lead: &str, why: &str) -> (e: HandlerEvent)
    ensures
        e@ == failure_event(lead@, why@),
{
    let mut text = String::from_str(lead);
    text.append(why);
    HandlerEvent::Replied(Reply::Text(text))
}

impl SaveState {
    /// Begins to save a video: the download is to be run first.
    pub fn start(clip_start: Option<&str>, clip_end: Option<&str>, as_format: Option<&str>) -> (r: (
        SaveState,
        SaveAction,
    ))
        ensures
            r.0@ == save_start(
                match clip_start {
                    Some(s) => Some(s@),
                    None => None,
                },
                match clip_end {
                    Some(s) => Some(s@),
                    None => None,
                },
                match as_format {
                    Some(s) => Some(s@),
                    None => None,
                },
            ),
            r.1@ == SaveActionView::Download,
    {
        let clip = match (clip_start, clip_end) {
            (Some(start), Some(end)) => Some(clip_arguments(start, end)),
            _ => None,
        };
        let format = match as_format {
            Some(format) => String::from_str(format),
            None => String::from_str(DEFAULT_FORMAT),
        };
        (SaveState::Downloading { clip, format }, SaveAction::Download)
    }

    /// Takes what happened and says what is done next.
    ///
    /// A downloaded file is converted where a clip was asked for, and sent
    /// as it is otherwise. A converted file is sent. A failed download and
    /// a failed conversion end with a message. On every way to the end,
    /// every file that was made is removed: the file that a failed run left
    /// over, the downloaded file, and the file that was sent or could not
    /// be sent. An event that does not belong to the state changes nothing.
    pub fn step(self, event: SaveEvent) -> (r: (SaveState, SaveAction))
        ensures
            (r.0@, r.1@) == save_step(self@, event@),
    {
        match (self, event) {
            (SaveState::Downloading { clip, format }, SaveEvent::Downloaded(result)) => {
                match result {
                    Err(failed) => (
                        SaveState::Finished,
                        SaveAction::Finish {
                            outcome: Some(failure(DOWNLOAD_ERROR, failed.why.as_str())),
                            remove: files_remaining(None, &failed.leftover),
                        },
                    ),
                    Ok(path) => {
                        match clip {
                            Some(range) => (
                                SaveState::Converting { first: path.clone() },
                                SaveAction::Convert { input: path, format, range },
                            ),
                            None => (
                                SaveState::Sending { first: path.clone(), last: path.clone() },
                                SaveAction::Send { file: path },
                            ),
                        }
                    },
                }
            },
            (SaveState::Converting { first }, SaveEvent::Converted(result)) => {
                match result {
                    Err(failed) => (
                        SaveState::Finished,
                        SaveAction::Finish {
                            outcome: Some(failure(CONVERT_ERROR, failed.why.as_str())),
                            remove: files_remaining(Some(first.as_str()), &failed.leftover),
                        },
                    ),
                    Ok(output) => (
                        SaveState::Sending { first, last: output.clone() },
                        SaveAction::Send { file: output },
                    ),
                }
            },
            (SaveState::Sending { first, last }, SaveEvent::Sent(failed)) => {
                let remove = files_to_remove(first.as_str(), last.as_str());
                let outcome = match failed {
                    Some(why) => Some(HandlerEvent::Failed(why)),
                    None => None,
                };
                (SaveState::Finished, SaveAction::Finish { outcome, remove })
            },
            (other, _) => (other, SaveAction::Nothing),
        }
    }
}

/// Begins to save the video behind a link: the download is to be run
/// first. A clip is cut only where both its start and its end are given;
/// the format is `mp4` unless another is asked for.
pub fn save(clip_start: Option<&str>, clip_end: Option<&str>, as_format: Option<&str>) -> (r: (
    SaveState,
    SaveAction,
))
    ensures
        r.0@ == save_start(
            match clip_start {
                Some(s) => Some(s@),
                None => None,
            },
            match clip_end {
                Some(s) => Some(s@),
                None => None,
            },
            match as_format {
                Some(s) => Some(s@),
                None => None,
            },
        ),
        r.1@ == SaveActionView::Download,
{
    SaveState::start(clip_start, clip_end, as_format)
}

/// When a download fails, saving is finished, and the file that the
/// download left over is to be removed.
pub proof fn lemma_failed_download_removes_its_file(
    clip: Option<Seq<char>>,
    format: Seq<char>,
    why: Seq<char>,
    leftover: Seq<char>,
)
    ensures
        ({
            let (state, action) = save_step(
                SaveStateView::Downloading { clip, format },
                SaveEventView::Downloaded(Err(ToolFailureView { why, leftover: Some(leftover) })),
            );
            &&& state is Finished
            &&& action is Finish
            &&& action->remove == seq![leftover]
        }),
{
}

/// When a conversion fails, saving is finished, and the downloaded file is
/// among those to remove, and so is the file that the conversion left
/// over, if it left one.
pub proof fn lemma_failed_conversion_removes_both(
    first: Seq<char>,
    why: Seq<char>,
    leftover: Option<Seq<char>>,
)
    ensures
        ({
            let (state, action) = save_step(
                SaveStateView::Converting { first },
                SaveEventView::Converted(Err(ToolFailureView { why, leftover })),
            );
            &&& state is Finished
            &&& action is Finish
            &&& action->remove.contains(first)
            &&& leftover matches Some(left) ==> action->remove.contains(left)
        }),
{
    match leftover {
        Some(left) => {
            let remove = leftovers(first, left);
            assert(remove[0] == left);
            if first != left {
                assert(remove[1] == first);
            }
        },
        None => {
            assert(seq![first][0] == first);
        },
    }
}

/// When the file was sent, or could not be sent, saving is finished, and
/// both the downloaded file and the file that was sent are among those to
/// remove, each once.
pub proof fn lemma_sending_removes_both(
    first: Seq<char>,
    last: Seq<char>,
    failure: Option<Seq<char>>,
)
    ensures
        ({
            let (state, action) = save_step(
                SaveStateView::Sending { first, last },
                SaveEventView::Sent(failure),
            );
            &&& state is Finished
            &&& action is Finish
            &&& action->remove.contains(first)
            &&& action->remove.contains(last)
            &&& action->remove.no_duplicates()
        }),
{
    let remove = leftovers(first, last);
    assert(remove[0] == last);
    if first != last {
        assert(remove[1] == first);
    }
}

} // verus!
