use domectrl::protocol::{parse_response, DomeResponse};

#[test]
fn open_byte_reports_open() {
    assert_eq!(parse_response(b"Y"), Some(DomeResponse::Open));
}

#[test]
fn closed_byte_reports_closed() {
    assert_eq!(parse_response(b"X"), Some(DomeResponse::Closed));
}

#[test]
fn last_report_in_chunk_wins() {
    assert_eq!(parse_response(b"XY"), Some(DomeResponse::Open));
    assert_eq!(parse_response(b"YX"), Some(DomeResponse::Closed));
    assert_eq!(parse_response(b"aYbbXcc"), Some(DomeResponse::Closed));
}

#[test]
fn chunk_without_report_gives_none() {
    assert_eq!(parse_response(b""), None);
    assert_eq!(parse_response(b"abc\r\n"), None);
    assert_eq!(parse_response(b"yx"), None);
}

#[test]
fn chunking_does_not_change_the_report() {
    let whole = b"..Y..X.Y..";
    let expected = parse_response(whole);
    for cut in 0..=whole.len() {
        let (a, b) = whole.split_at(cut);
        let combined = match parse_response(b) {
            Some(r) => Some(r),
            None => parse_response(a),
        };
        assert_eq!(combined, expected);
    }
}

#[test]
fn default_response_is_unknown() {
    assert_eq!(DomeResponse::default(), DomeResponse::Unknown);
}
