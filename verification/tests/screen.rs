use media_widget::screen::{
    connect_prompt, track_screen, Bar, Icon, PlacedIcon, Position, BAR_HEIGHT, BAR_MARGIN,
    BAR_WIDTH, SCREEN_HEIGHT, SCREEN_WIDTH,
};

#[test]
fn bar_is_four_fifths_wide() {
    assert_eq!(BAR_WIDTH, (SCREEN_WIDTH as f32 * 0.8) as i32);
    assert_eq!(BAR_MARGIN, (SCREEN_WIDTH as f32 * 0.1) as i32);
}

#[test]
fn track_is_laid_out() {
    let screen = track_screen("Bohemian Rhapsody", 51, true);
    assert_eq!(screen.title.text, "Bohemian Rha...");
    assert_eq!(screen.title.center, Position { x: 64, y: 16 });
    assert_eq!(
        screen.elapsed,
        Bar { corner: Position { x: 12, y: 32 }, width: 51, height: 4, filled: true }
    );
    assert_eq!(
        screen.remaining,
        Bar { corner: Position { x: 63, y: 32 }, width: 51, height: 4, filled: false }
    );
    assert_eq!(
        screen.toggle,
        PlacedIcon { icon: Icon::Pause, center: Position { x: 64, y: 48 } }
    );
    assert_eq!(
        screen.backward,
        PlacedIcon { icon: Icon::Backward, center: Position { x: 32, y: 48 } }
    );
    assert_eq!(
        screen.forward,
        PlacedIcon { icon: Icon::Forward, center: Position { x: 96, y: 48 } }
    );
}

#[test]
fn paused_track_offers_to_play() {
    assert_eq!(track_screen("", 0, false).toggle.icon, Icon::Play);
    assert_eq!(track_screen("", 0, true).toggle.icon, Icon::Pause);
}

#[test]
fn parts_of_the_bar_share_an_edge() {
    for done in 0..=BAR_WIDTH {
        let screen = track_screen("x", done, true);
        assert_eq!(screen.elapsed.width + screen.remaining.width, BAR_WIDTH as u32);
        assert_eq!(
            screen.remaining.corner.x,
            screen.elapsed.corner.x + screen.elapsed.width as i32
        );
        assert!(
            screen.remaining.corner.x + screen.remaining.width as i32 <= SCREEN_WIDTH
        );
        assert!(screen.elapsed.corner.y + BAR_HEIGHT as i32 <= SCREEN_HEIGHT);
    }
}

#[test]
fn lengths_outside_the_bar_wrap() {
    let over = track_screen("x", 200, true);
    assert_eq!(over.elapsed.width, 200);
    assert_eq!(over.remaining.width, 4_294_967_198);
    assert_eq!(over.remaining.corner.x, 212);
    let under = track_screen("x", -5, true);
    assert_eq!(under.elapsed.width, 4_294_967_291);
    assert_eq!(under.remaining.width, 107);
    assert_eq!(under.remaining.corner.x, 7);
    assert_eq!(under.elapsed.width.wrapping_add(under.remaining.width), 102);
}

#[test]
fn prompt_names_the_device() {
    let prompt = connect_prompt();
    assert_eq!(prompt.text, "Connect to \"Widget\"\non Bluetooth");
    assert_eq!(prompt.center, Position { x: 64, y: 32 });
}
