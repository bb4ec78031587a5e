use maxine::commands::format_timestamp;
use maxine::commands::save::pad_piece;

#[test]
fn short_pieces_are_filled() {
    assert_eq!(format_timestamp("0:5"), "00:05");
    assert_eq!(format_timestamp("0:10"), "00:10");
}

#[test]
fn long_pieces_stay_as_they_are() {
    assert_eq!(format_timestamp("1:02:03"), "01:02:03");
    assert_eq!(format_timestamp("123:4"), "123:04");
}

#[test]
fn empty_pieces_become_two_zeros() {
    assert_eq!(format_timestamp(""), "00");
    assert_eq!(format_timestamp(":"), "00:00");
    assert_eq!(format_timestamp("5:"), "05:00");
}

#[test]
fn pieces_are_filled_by_characters_not_bytes() {
    assert_eq!(pad_piece("\u{e9}"), "0\u{e9}");
    assert_eq!(pad_piece("\u{e9}\u{e9}"), "\u{e9}\u{e9}");
}
