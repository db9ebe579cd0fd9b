use fts_loader::detect_delimiter;
use fts_loader::sniff::first_line;

#[test]
fn comma_wins_example() {
    // comma occurs 3 times, semicolon once
    assert_eq!(detect_delimiter(b"a,b;c,d,e".as_slice()), b',');
}

#[test]
fn all_zero_counts_default_to_comma() {
    assert_eq!(detect_delimiter(b"abc".as_slice()), b',');
    assert_eq!(detect_delimiter(b"".as_slice()), b',');
}

#[test]
fn tie_favors_comma() {
    assert_eq!(detect_delimiter(b"a,b;c".as_slice()), b',');
    assert_eq!(detect_delimiter(b"a,b\tc|d;e".as_slice()), b',');
}

#[test]
fn semicolon_wins_on_strict_majority() {
    assert_eq!(detect_delimiter(b"a;b;c,d".as_slice()), b';');
}

#[test]
fn tab_wins_on_strict_majority() {
    assert_eq!(detect_delimiter(b"a\tb\tc,d".as_slice()), b'\t');
}

#[test]
fn pipe_wins_on_strict_majority() {
    assert_eq!(detect_delimiter(b"a|b|c;d".as_slice()), b'|');
}

#[test]
fn later_candidate_needs_strict_win_over_earlier() {
    // two semicolons, two tabs: the earlier candidate keeps the pick
    assert_eq!(detect_delimiter(b"a;b;c\td\te".as_slice()), b';');
}

#[test]
fn first_line_stops_at_line_feed() {
    assert_eq!(first_line(b"a;b\nc,d,e".as_slice()), b"a;b".as_slice());
    assert_eq!(first_line(b"a,b".as_slice()), b"a,b".as_slice());
    assert_eq!(first_line(b"\nx,y".as_slice()), b"".as_slice());
}

#[test]
fn sniffer_looks_only_at_first_line() {
    let data = b"a;b\nc,d,e\nf,g,h\n";
    assert_eq!(detect_delimiter(first_line(data.as_slice())), b';');
}
