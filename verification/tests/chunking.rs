use auto_video::text::{join_chunks, split_chunks};

fn assert_round_trip(text: &str, cap: usize) {
    let pieces = split_chunks(text, cap);
    for p in &pieces {
        assert!(!p.is_empty());
        assert!(p.chars().count() <= cap);
    }
    let joined = join_chunks(&pieces);
    assert_eq!(joined, text);
}

#[test]
fn split_join_round_trip_various() {
    assert_round_trip("", 5);
    assert_round_trip("a", 1);
    assert_round_trip("hello world", 3);
    assert_round_trip("hello world", 11);
    assert_round_trip("hello world", 100);
    assert_round_trip("abcdefghij", 10);
    assert_round_trip("abcdefghijk", 10);
}

#[test]
fn single_piece_when_text_fits_cap() {
    let pieces = split_chunks("short text", 250);
    assert_eq!(pieces.len(), 1);
    assert_eq!(pieces[0], "short text");
}

#[test]
fn empty_text_yields_empty_plan() {
    let pieces = split_chunks("", 250);
    assert_eq!(pieces.len(), 0);
    assert_eq!(join_chunks(&pieces), "");
}

#[test]
fn six_hundred_units_cap_250_gives_three_pieces() {
    let text: String = std::iter::repeat('x').take(600).collect();
    let pieces = split_chunks(&text, 250);
    assert_eq!(pieces.len(), 3);
    assert_eq!(pieces[0].chars().count(), 250);
    assert_eq!(pieces[1].chars().count(), 250);
    assert_eq!(pieces[2].chars().count(), 100);
    assert_eq!(join_chunks(&pieces), text);
}

#[test]
fn counts_characters_not_bytes_and_never_splits_mid_character() {
    // Each of these characters is three bytes in UTF-8; the cap counts
    // characters, so two characters per piece.
    let text = "\u{4e00}\u{4e8c}\u{4e09}\u{56db}\u{4e94}";
    let pieces = split_chunks(text, 2);
    assert_eq!(pieces.len(), 3);
    assert_eq!(pieces[0], "\u{4e00}\u{4e8c}");
    assert_eq!(pieces[1], "\u{4e09}\u{56db}");
    assert_eq!(pieces[2], "\u{4e94}");
    assert_eq!(join_chunks(&pieces), text);
}

#[test]
fn deterministic_same_input_same_plan() {
    let a = split_chunks("some narration text to split", 7);
    let b = split_chunks("some narration text to split", 7);
    assert_eq!(a, b);
}
