use discord_tui::text_cursor::{clamp_cursor_index, next_char_boundary, previous_char_boundary};

#[test]
fn cursor_boundaries_step_over_graphemes() {
    let value = "a🇰🇷e\u{301}z";
    let flag_end = "a🇰🇷".len();
    let accent_end = "a🇰🇷e\u{301}".len();

    assert_eq!(next_char_boundary(value, 0), "a".len());
    assert_eq!(next_char_boundary(value, "a".len()), flag_end);
    assert_eq!(previous_char_boundary(value, flag_end), "a".len());
    assert_eq!(previous_char_boundary(value, accent_end), flag_end);
}

#[test]
fn clamping_pulls_the_cursor_onto_a_boundary() {
    let value = "aé";
    assert_eq!(clamp_cursor_index(value, 0), 0);
    assert_eq!(clamp_cursor_index(value, 2), 1);
    assert_eq!(clamp_cursor_index(value, 3), 3);
    assert_eq!(clamp_cursor_index(value, 99), 3);
}

#[test]
fn cursor_stays_put_at_the_ends() {
    let value = "ab";
    assert_eq!(previous_char_boundary(value, 0), 0);
    assert_eq!(next_char_boundary(value, 2), 2);
    assert_eq!(next_char_boundary(value, 50), 2);
    assert_eq!(previous_char_boundary("", 5), 0);
    assert_eq!(next_char_boundary("", 5), 0);
}

#[test]
fn stepping_from_inside_a_character_starts_at_its_boundary() {
    let value = "xé!";
    // byte 2 is inside `é`; it clamps to 1 first
    assert_eq!(next_char_boundary(value, 2), 3);
    assert_eq!(previous_char_boundary(value, 2), 0);
}
