use sheet_fetch::errors::SheetError;
use sheet_fetch::text::{chars_of, strip_controls};
use sheet_fetch::title::parse_title;

#[test]
fn derives_swapped_title() {
    let r = parse_title("A|B").unwrap();
    assert_eq!(r, "B - A");
}

#[test]
fn strips_control_whitespace_before_splitting() {
    let r = parse_title("\tSong Name\r|\nArtist\n").unwrap();
    assert_eq!(r, "Artist - Song Name");
}

#[test]
fn keeps_plain_spaces() {
    let r = parse_title("a b | c d").unwrap();
    assert_eq!(r, " c d - a b ");
}

#[test]
fn zero_separators_is_a_missing_title() {
    let r = parse_title("no separator here");
    assert_eq!(r, Err(SheetError::GetFailed("sheet title".to_string())));
}

#[test]
fn two_separators_is_a_missing_title() {
    let r = parse_title("a|b|c");
    assert_eq!(r, Err(SheetError::GetFailed("sheet title".to_string())));
}

#[test]
fn empty_input_is_a_missing_title() {
    let r = parse_title("");
    assert_eq!(r, Err(SheetError::GetFailed("sheet title".to_string())));
}

#[test]
fn stripping_is_idempotent() {
    let once = strip_controls(&chars_of("a\tb\r\nc|d\n"));
    let twice = strip_controls(&once);
    assert_eq!(once, twice);
}

#[test]
fn separator_at_edge_keeps_empty_part() {
    assert_eq!(parse_title("A|").unwrap(), " - A");
    assert_eq!(parse_title("|B").unwrap(), "B - ");
}
