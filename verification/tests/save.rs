use maxine::commands::{
    clip_arguments, convert_arguments, convert_outcome, download_arguments, download_outcome,
    save, SaveAction, SaveEvent, SaveState, ToolFailure,
};
use maxine::reply::Reply;
use maxine::request::HandlerEvent;

fn texts(items: &[&str]) -> Vec<String> {
    items.iter().map(|s| s.to_string()).collect()
}

#[test]
fn a_clip_is_downloaded_converted_sent_and_cleaned_up() {
    let (state, action) = save(Some("0:5"), Some("0:10"), None);
    assert_eq!(action, SaveAction::Download);
    let (state, action) = state.step(SaveEvent::Downloaded(Ok("/tmp/a.mp4".to_string())));
    assert_eq!(
        action,
        SaveAction::Convert {
            input: "/tmp/a.mp4".to_string(),
            format: "mp4".to_string(),
            range: "-ss 00:05 -to 00:10".to_string(),
        }
    );
    let (state, action) =
        state.step(SaveEvent::Converted(Ok("/tmp/b.mp4".to_string())));
    assert_eq!(action, SaveAction::Send { file: "/tmp/b.mp4".to_string() });
    let (state, action) = state.step(SaveEvent::Sent(None));
    assert_eq!(state, SaveState::Finished);
    assert_eq!(
        action,
        SaveAction::Finish { outcome: None, remove: texts(&["/tmp/b.mp4", "/tmp/a.mp4"]) }
    );
    let (state, action) = state.step(SaveEvent::Sent(None));
    assert_eq!((state, action), (SaveState::Finished, SaveAction::Nothing));
}

#[test]
fn a_failed_conversion_still_cleans_up() {
    let (state, _) = SaveState::start(Some("1:00"), Some("2:00"), Some("gif"));
    let (state, action) = state.step(SaveEvent::Downloaded(Ok("/tmp/a.mp4".to_string())));
    assert_eq!(
        action,
        SaveAction::Convert {
            input: "/tmp/a.mp4".to_string(),
            format: "gif".to_string(),
            range: "-ss 01:00 -to 02:00".to_string(),
        }
    );
    let (state, action) = state.step(SaveEvent::Converted(Err(ToolFailure {
        why: "Failed to convert video: bad codec".to_string(),
        leftover: Some("/tmp/b.gif".to_string()),
    })));
    assert_eq!(state, SaveState::Finished);
    assert_eq!(
        action,
        SaveAction::Finish {
            outcome: Some(HandlerEvent::Replied(Reply::Text(
                "Error converting video: Failed to convert video: bad codec".to_string()
            ))),
            remove: texts(&["/tmp/b.gif", "/tmp/a.mp4"]),
        }
    );
}

#[test]
fn a_failed_send_still_cleans_up() {
    let (state, _) = SaveState::start(Some("1:00"), Some("2:00"), None);
    let (state, _) = state.step(SaveEvent::Downloaded(Ok("/tmp/a.mp4".to_string())));
    let (state, _) =
        state.step(SaveEvent::Converted(Ok("/tmp/b.mp4".to_string())));
    let (state, action) = state.step(SaveEvent::Sent(Some("too large".to_string())));
    assert_eq!(state, SaveState::Finished);
    assert_eq!(
        action,
        SaveAction::Finish {
            outcome: Some(HandlerEvent::Failed("too large".to_string())),
            remove: texts(&["/tmp/b.mp4", "/tmp/a.mp4"]),
        }
    );
}

#[test]
fn a_failed_download_ends_with_a_message() {
    let (state, _) = SaveState::start(None, None, None);
    let (state, action) = state.step(SaveEvent::Downloaded(Err(ToolFailure {
        why: "Failed to download video: 404".to_string(),
        leftover: None,
    })));
    assert_eq!(state, SaveState::Finished);
    assert_eq!(
        action,
        SaveAction::Finish {
            outcome: Some(HandlerEvent::Replied(Reply::Text(
                "Error downloading video: Failed to download video: 404".to_string()
            ))),
            remove: vec![],
        }
    );
}

#[test]
fn without_both_ends_nothing_is_converted() {
    for (start, end) in [(None, None), (Some("0:5"), None), (None, Some("0:10"))] {
        let (state, _) = SaveState::start(start, end, Some("webm"));
        assert_eq!(state, SaveState::Downloading { clip: None, format: "webm".to_string() });
        let (state, action) = state.step(SaveEvent::Downloaded(Ok("/tmp/a.mp4".to_string())));
        assert_eq!(action, SaveAction::Send { file: "/tmp/a.mp4".to_string() });
        let (_, action) = state.step(SaveEvent::Sent(None));
        assert_eq!(action, SaveAction::Finish { outcome: None, remove: texts(&["/tmp/a.mp4"]) });
    }
}

#[test]
fn events_out_of_turn_change_nothing() {
    let (state, _) = SaveState::start(None, None, None);
    let (state, action) = state.step(SaveEvent::Sent(None));
    assert_eq!(state, SaveState::Downloading { clip: None, format: "mp4".to_string() });
    assert_eq!(action, SaveAction::Nothing);
}

#[test]
fn clip_arguments_hold_both_ends() {
    assert_eq!(clip_arguments("0:5", "0:10"), "-ss 00:05 -to 00:10");
    assert_eq!(clip_arguments("1:2:3", "10"), "-ss 01:02:03 -to 10");
}

#[test]
fn download_arguments_leave_the_header_out_for_the_plain_host() {
    let selector =
        "bv*[ext=mp4][vcodec=h264]+ba[ext=m4a]/b[ext=mp4][vcodec=h264]/bv[vcodec=h264]+ba/bv+ba/b";
    assert_eq!(
        download_arguments("https://example.com/v", "/tmp/a.mp4", false),
        texts(&[
            "https://example.com/v",
            "-o",
            "/tmp/a.mp4",
            "-f",
            selector,
            "--compat-opt",
            "prefer-vp9-sort",
            "--no-check-certificate",
            "--add-header",
            "User-Agent:facebookexternalhit/1.1",
            "--no-warnings",
        ])
    );
    assert_eq!(
        download_arguments("https://www.reddit.com/r/x", "/tmp/a.mp4", true),
        texts(&[
            "https://www.reddit.com/r/x",
            "-o",
            "/tmp/a.mp4",
            "-f",
            selector,
            "--compat-opt",
            "prefer-vp9-sort",
            "--no-check-certificate",
        ])
    );
}

#[test]
fn convert_arguments_pick_the_codec_by_format() {
    assert_eq!(
        convert_arguments("/tmp/a.mp4", "gif", Some("-ss 00:05  -to 00:10"), "/tmp/b.gif"),
        texts(&[
            "-i", "/tmp/a.mp4", "-ss", "00:05", "-to", "00:10", "-c:v", "gif", "-preset",
            "medium", "-y", "/tmp/b.gif",
        ])
    );
    assert_eq!(
        convert_arguments("/tmp/a.mp4", "webm", None, "/tmp/b.webm"),
        texts(&["-i", "/tmp/a.mp4", "-c:v", "libx264", "-preset", "medium", "-y", "/tmp/b.webm"])
    );
}

#[test]
fn a_failed_download_removes_what_it_left() {
    let (state, _) = SaveState::start(None, None, None);
    let (state, action) = state.step(SaveEvent::Downloaded(Err(ToolFailure {
        why: "Failed to download video: broke off".to_string(),
        leftover: Some("/tmp/a.mp4".to_string()),
    })));
    assert_eq!(state, SaveState::Finished);
    assert_eq!(
        action,
        SaveAction::Finish {
            outcome: Some(HandlerEvent::Replied(Reply::Text(
                "Error downloading video: Failed to download video: broke off".to_string()
            ))),
            remove: texts(&["/tmp/a.mp4"]),
        }
    );
}

#[test]
fn a_failed_conversion_without_a_file_removes_the_download() {
    let (state, _) = SaveState::start(Some("1:00"), Some("2:00"), None);
    let (state, _) = state.step(SaveEvent::Downloaded(Ok("/tmp/a.mp4".to_string())));
    let (state, action) = state.step(SaveEvent::Converted(Err(ToolFailure {
        why: "Failed to convert video: no output".to_string(),
        leftover: None,
    })));
    assert_eq!(state, SaveState::Finished);
    assert_eq!(
        action,
        SaveAction::Finish {
            outcome: Some(HandlerEvent::Replied(Reply::Text(
                "Error converting video: Failed to convert video: no output".to_string()
            ))),
            remove: texts(&["/tmp/a.mp4"]),
        }
    );
}

fn failed(why: &str, leftover: Option<&str>) -> Result<String, ToolFailure> {
    Err(ToolFailure { why: why.to_string(), leftover: leftover.map(|p| p.to_string()) })
}

#[test]
fn tool_runs_are_judged() {
    assert_eq!(download_outcome(true, true, "", "/tmp/a.mp4"), Ok("/tmp/a.mp4".to_string()));
    assert_eq!(
        download_outcome(true, false, "warn", "/tmp/a.mp4"),
        failed("Failed to download video: warn", None)
    );
    assert_eq!(
        download_outcome(false, true, "404", "/tmp/a.mp4"),
        failed("Failed to download video: 404", Some("/tmp/a.mp4"))
    );
    assert_eq!(
        download_outcome(false, false, "404", "/tmp/a.mp4"),
        failed("Failed to download video: 404", None)
    );
}

#[test]
fn the_transcoder_must_leave_its_file() {
    assert_eq!(convert_outcome(true, true, "noise", "/tmp/b.gif"), Ok("/tmp/b.gif".to_string()));
    assert_eq!(
        convert_outcome(true, false, "noise", "/tmp/b.gif"),
        failed("Failed to convert video: noise", None)
    );
    assert_eq!(
        convert_outcome(false, true, "bad", "/tmp/b.gif"),
        failed("Failed to convert video: bad", Some("/tmp/b.gif"))
    );
    assert_eq!(
        convert_outcome(false, false, "bad", "/tmp/b.gif"),
        failed("Failed to convert video: bad", None)
    );
}
