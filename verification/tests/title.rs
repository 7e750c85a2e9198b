use media_widget::title::{display_text, track_title, TITLE_KEPT, TITLE_MAX};

#[test]
fn title_is_the_bytes_that_were_read() {
    let mut data = [0u8; 64];
    data[..5].copy_from_slice(b"Hello");
    assert_eq!(track_title(&data, 5), "Hello");
    assert_eq!(track_title(&data, 4), "Hell");
    assert_eq!(track_title(&data, 0), "");
    assert_eq!(track_title(&data, 6), "Hello\0");
}

#[test]
fn title_that_is_no_utf8_is_empty() {
    assert_eq!(track_title(&[0xff, 0xfe], 2), "");
    assert_eq!(track_title(&[b'a', 0xc3], 2), "");
    assert_eq!(track_title(&[b'a', 0xc3], 1), "a");
}

#[test]
fn title_may_hold_any_character() {
    let text = "日本語 é 🎵";
    assert_eq!(track_title(text.as_bytes(), text.len()), text);
}

#[test]
fn short_title_is_shown_whole() {
    assert_eq!(display_text(""), "");
    assert_eq!(display_text("Yesterday"), "Yesterday");
    assert_eq!(display_text("123456789012345"), "123456789012345");
}

#[test]
fn long_title_is_cut() {
    assert_eq!(display_text("1234567890123456"), "123456789012...");
    assert_eq!(display_text("Bohemian Rhapsody"), "Bohemian Rha...");
    assert_eq!(display_text("日本語日本語"), "日本語日...");
}

#[test]
fn title_is_measured_in_bytes() {
    assert_eq!(display_text("日本語日本"), "日本語日本");
    assert_eq!(display_text("日本語日本a"), "日本語日...");
}

#[test]
fn shown_title_stays_short() {
    for len in 0..64 {
        let title: String = core::iter::repeat('x').take(len).collect();
        let shown = display_text(&title);
        assert!(shown.len() <= TITLE_MAX);
        if len > TITLE_MAX {
            assert_eq!(shown.len(), TITLE_MAX);
            assert!(title.starts_with(&shown[..TITLE_KEPT]));
            assert!(shown.ends_with("..."));
        }
    }
}
