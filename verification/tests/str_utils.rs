use waybar_mpris::str_utils::{
    byte_len, char_utf8_width, has_prefix, join_strings, str_eq, truncate_str, truncate_string,
};

#[test]
fn short_text_is_kept() {
    assert_eq!(truncate_str("Hello", 10), "Hello");
    assert_eq!(truncate_str("Hello", 5), "Hello");
    assert_eq!(truncate_string("Hello".to_string(), 5), "Hello");
}

#[test]
fn zero_limit_keeps_everything() {
    let long = "a rather long title that goes on";
    assert_eq!(truncate_str(long, 0), long);
    assert_eq!(truncate_string(long.to_string(), 0), long);
}

#[test]
fn long_ascii_text_is_cut_with_marker() {
    assert_eq!(truncate_str("Hello, world!", 8), "Hello...");
    assert_eq!(truncate_string("Hello, world!".to_string(), 8), "Hello...");
    assert_eq!(truncate_str("abcd", 3), "...");
}

#[test]
fn cut_falls_on_a_character_boundary() {
    // 'é' takes two bytes: a budget of 3 bytes holds "hé", one of 2 only "h".
    assert_eq!(truncate_str("héllo wörld", 6), "hé...");
    assert_eq!(truncate_str("héllo wörld", 5), "h...");
    assert_eq!(truncate_string("日本語のタイトル".to_string(), 10), "日本...");
}

#[test]
fn truncated_text_fits_its_limit() {
    for text in ["Hello, world!", "héllo wörld", "日本語のタイトル", "x"] {
        for limit in 3..20 {
            let t = truncate_str(text, limit);
            assert!(t.len() <= limit, "{:?} under {}", t, limit);
        }
    }
}

#[test]
fn truncation_is_idempotent() {
    for text in ["Hello, world!", "héllo wörld", "日本語のタイトル"] {
        for limit in [0usize, 3, 4, 7, 12, 40] {
            let once = truncate_str(text, limit);
            assert_eq!(truncate_str(&once, limit), once);
        }
    }
}

#[test]
fn both_forms_agree() {
    for text in ["Hello, world!", "héllo wörld", "ok"] {
        for limit in [0usize, 3, 5, 9, 50] {
            assert_eq!(truncate_str(text, limit), truncate_string(text.to_string(), limit));
        }
    }
}

#[test]
fn widths_and_lengths() {
    assert_eq!(char_utf8_width('a'), 1);
    assert_eq!(char_utf8_width('é'), 2);
    assert_eq!(char_utf8_width('本'), 3);
    assert_eq!(char_utf8_width('🎵'), 4);
    assert_eq!(byte_len("héllo"), 6);
}

#[test]
fn comparisons_and_prefixes() {
    assert!(str_eq("abc", "abc"));
    assert!(!str_eq("abc", "abd"));
    assert!(!str_eq("abc", "ab"));
    assert!(has_prefix("org.mpris.MediaPlayer2.vlc", "org.mpris.MediaPlayer2"));
    assert!(!has_prefix("org.mpris", "org.mpris.MediaPlayer2"));
    assert!(has_prefix("anything", ""));
}

#[test]
fn joining() {
    let parts = vec!["A".to_string(), "B".to_string(), "C".to_string()];
    assert_eq!(join_strings(&parts, ", "), "A, B, C");
    assert_eq!(join_strings(&vec![], ", "), "");
    assert_eq!(join_strings(&vec!["solo".to_string()], ", "), "solo");
}
