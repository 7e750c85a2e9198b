//! Where things stand on the display.
//!
//! The display is 128 pixels wide and 64 high. A screen is a list of things to
//! draw, in the order of the fields.

use vstd::prelude::*;
use vstd::utf8::encode_utf8;

use crate::title::{can_show, display_text, shown_title};

verus! {

pub const SCREEN_WIDTH: i32 = 128;

pub const SCREEN_HEIGHT: i32 = 64;

/// Width of the progress bar: four fifths of the screen.
pub const BAR_WIDTH: i32 = 102;

/// Where the progress bar starts: a tenth of the screen.
pub const BAR_MARGIN: i32 = 12;

pub const BAR_HEIGHT: u32 = 4;

/// A place on the display, in pixels from the top left corner.
#[derive(Debug, Clone, Copy, PartialEq, Eq, Structural)]
pub struct Position {
    pub x: i32,
    pub y: i32,
}

/// A text that is centred on a place.
#[derive(Debug, PartialEq, Eq)]
pub struct Label {
    pub text: String,
    pub center: Position,
}

/// One part of the progress bar, with its top left corner.
#[derive(Debug, Clone, Copy, PartialEq, Eq, Structural)]
pub struct Bar {
    pub corner: Position,
    pub width: u32,
    pub height: u32,
    /// Whether the inside is lit; the outline always is.
    pub filled: bool,
}

#[derive(Debug, Clone, Copy, PartialEq, Eq, Structural)]
pub enum Icon {
    Play,
    Pause,
    Forward,
    Backward,
}

/// An icon that is centred on a place.
#[derive(Debug, Clone, Copy, PartialEq, Eq, Structural)]
pub struct PlacedIcon {
    pub icon: Icon,
    pub center: Position,
}

/// What is drawn on the cleared display.
#[derive(Debug, PartialEq, Eq)]
pub struct Screen {
    pub title: Label,
    pub elapsed: Bar,
    pub remaining: Bar,
    pub toggle: PlacedIcon,
    pub backward: PlacedIcon,
    pub forward: PlacedIcon,
}

/// The number that `value` becomes as an unsigned 32-bit one.
pub open spec fn wrap_u32(value: int) -> int {
    value % 0x1_0000_0000
}

/// Whether the two parts of a bar with `done` pixels behind it can be placed:
/// where the second starts, and how long it is, has to be an `i32`.
pub open spec fn can_place(done: i32) -> bool {
    &&& BAR_MARGIN + done <= i32::MAX
    &&& BAR_WIDTH - done <= i32::MAX
}

/// The part of the bar that lies behind, `done` pixels of it.
pub open spec fn elapsed_bar(done: i32) -> Bar {
    Bar {
        corner: Position { x: 12, y: 32 },
        width: wrap_u32(done as int) as u32,
        height: 4,
        filled: true,
    }
}

/// The part of the bar that lies ahead of `done` pixels.
pub open spec fn remaining_bar(done: i32) -> Bar {
    Bar {
        corner: Position { x: (12 + done) as i32, y: 32 },
        width: wrap_u32(102 - done) as u32,
        height: 4,
        filled: false,
    }
}

/// The screen that shows a track: its title, how much of the bar lies behind,
/// the button that would pause or resume it, and the two that skip.
///
/// `done` is the length in pixels of the part of the bar that lies behind.
pub fn track_screen(title: &str, done: i32, playing: bool) -> (screen: Screen)
    requires
        can_show(title@),
        can_place(done),
    ensures
        screen.title.text@ == shown_title(title@),
        encode_utf8(title@).len() <= 15 ==> screen.title.text@ == title@,
        encode_utf8(title@).len() > 15 ==> encode_utf8(screen.title.text@) == encode_utf8(
            title@,
        ).subrange(0, 12) + seq![0x2eu8, 0x2e, 0x2e],
        screen.title.center == (Position { x: 64, y: 16 }),
        screen.elapsed == elapsed_bar(done),
        screen.remaining == remaining_bar(done),
        screen.elapsed.corner == (Position { x: 12, y: 32 }),
        done >= 0 ==> screen.elapsed.width == done,
        done < 0 ==> screen.elapsed.width == done + 0x1_0000_0000,
        screen.elapsed.height == 4,
        screen.elapsed.filled,
        screen.remaining.corner.x == 12 + done,
        screen.remaining.corner.y == 32,
        done <= 102 ==> screen.remaining.width == 102 - done,
        done > 102 ==> screen.remaining.width == 102 - done + 0x1_0000_0000,
        screen.remaining.height == 4,
        !screen.remaining.filled,
        screen.toggle == (PlacedIcon {
            icon: if playing {
                Icon::Pause
            } else {
                Icon::Play
            },
            center: Position { x: 64, y: 48 },
        }),
        screen.backward == (PlacedIcon {
            icon: Icon::Backward,
            center: Position { x: 32, y: 48 },
        }),
        screen.forward == (PlacedIcon {
            icon: Icon::Forward,
            center: Position { x: 96, y: 48 },
        }),
{
    let left: i32 = BAR_WIDTH - done;
    Screen {
        title: Label {
            text: display_text(title),
            center: Position { x: SCREEN_WIDTH / 2, y: SCREEN_HEIGHT / 4 },
        },
        elapsed: Bar {
            corner: Position { x: BAR_MARGIN, y: SCREEN_HEIGHT / 2 },
            width: to_u32(done),
            height: BAR_HEIGHT,
            filled: true,
        },
        remaining: Bar {
            corner: Position { x: BAR_MARGIN + done, y: SCREEN_HEIGHT / 2 },
            width: to_u32(left),
            height: BAR_HEIGHT,
            filled: false,
        },
        toggle: PlacedIcon {
            icon: if playing {
                Icon::Pause
            } else {
                Icon::Play
            },
            center: Position { x: SCREEN_WIDTH / 2, y: 3 * SCREEN_HEIGHT / 4 },
        },
        backward: PlacedIcon {
            icon: Icon::Backward,
            center: Position { x: SCREEN_WIDTH / 4, y: 3 * SCREEN_HEIGHT / 4 },
        },
        forward: PlacedIcon {
            icon: Icon::Forward,
            center: Position { x: 3 * SCREEN_WIDTH / 4, y: 3 * SCREEN_HEIGHT / 4 },
        },
    }
}

/// `value` as an unsigned number of the same bits.
fn to_u32(value: i32) -> (result: u32)
    ensures
        result == wrap_u32(value as int),
        value >= 0 ==> result == value,
        value < 0 ==> result == value + 0x1_0000_0000,
{
    assert(value >= 0 ==> value as u32 == value) by (bit_vector);
    assert(value < 0 ==> value as u32 == value + 0x1_0000_0000) by (bit_vector);
    value as u32
}

/// As long as no more lies behind than there is, the two parts of the bar
/// share an edge, make up the whole bar, and stay on the display.
pub proof fn bars_tile(done: i32)
    requires
        0 <= done <= BAR_WIDTH,
    ensures
        can_place(done),
        elapsed_bar(done).width + remaining_bar(done).width == BAR_WIDTH,
        elapsed_bar(done).corner.x == BAR_MARGIN,
        remaining_bar(done).corner.x == elapsed_bar(done).corner.x + elapsed_bar(done).width,
        remaining_bar(done).corner.x + remaining_bar(done).width <= SCREEN_WIDTH,
        remaining_bar(done).corner.y == elapsed_bar(done).corner.y,
        remaining_bar(done).corner.y + remaining_bar(done).height <= SCREEN_HEIGHT,
{
}

/// However much lies behind, the lengths of the two parts add up to the whole
/// bar, as 32-bit numbers.
pub proof fn bar_lengths_add_up(done: i32)
    requires
        can_place(done),
    ensures
        wrap_u32(elapsed_bar(done).width + remaining_bar(done).width) == BAR_WIDTH,
{
}

/// The screen shown while no phone is connected.
pub fn connect_prompt() -> (prompt: Label)
    ensures
        prompt.text@ == "Connect to \"Widget\"\non Bluetooth"@,
        prompt.center == (Position { x: 64, y: 32 }),
{
    Label {
        text: "Connect to \"Widget\"\non Bluetooth".to_owned(),
        center: Position { x: SCREEN_WIDTH / 2, y: SCREEN_HEIGHT / 2 },
    }
}

/// With `done` pixels behind, that many are filled from the margin on, and the
/// rest of the bar follows, as long as no more lies behind than there is.
pub proof fn bar_filled_from_left(title: &str, done: i32, playing: bool, screen: Screen)
    requires
        can_show(title@),
        0 <= done <= 102,
        call_ensures(track_screen, (title, done, playing), screen),
    ensures
        screen.elapsed.filled,
        screen.elapsed.corner.x == 12,
        screen.elapsed.width == done,
        !screen.remaining.filled,
        screen.remaining.corner.x == 12 + done,
        screen.remaining.width == 102 - done,
        screen.elapsed.corner.y == 32 && screen.remaining.corner.y == 32,
        screen.elapsed.height == 4 && screen.remaining.height == 4,
{
}

/// The filled part grows with what lies behind by as much as the other part
/// shrinks; nothing else on the screen changes.
pub proof fn bar_grows(title: &str, playing: bool, less: i32, more: i32, one: Screen, other: Screen)
    requires
        can_show(title@),
        0 <= less < more <= 102,
        call_ensures(track_screen, (title, less, playing), one),
        call_ensures(track_screen, (title, more, playing), other),
    ensures
        one.elapsed.width < other.elapsed.width,
        one.remaining.width > other.remaining.width,
        other.elapsed.width - one.elapsed.width == more - less,
        one.remaining.width - other.remaining.width == more - less,
        other.remaining.corner.x - one.remaining.corner.x == more - less,
        one.elapsed.corner == other.elapsed.corner,
        one.title.text@ == other.title.text@,
        one.toggle == other.toggle,
{
}

/// The first part of the bar is `done` pixels long, as a 32-bit number, and the
/// second starts that many pixels from the margin and takes what is left.
pub proof fn bars_as_long_as_done(done: i32)
    requires
        can_place(done),
    ensures
        done >= 0 ==> elapsed_bar(done).width == done,
        done < 0 ==> elapsed_bar(done).width == done + 0x1_0000_0000,
        elapsed_bar(done).corner == (Position { x: 12, y: 32 }),
        done <= 102 ==> remaining_bar(done).width == 102 - done,
        done > 102 ==> remaining_bar(done).width == 102 - done + 0x1_0000_0000,
        remaining_bar(done).corner.x == 12 + done,
        remaining_bar(done).corner.y == 32,
        elapsed_bar(done).filled && !remaining_bar(done).filled,
{
}

/// A bar can be placed unless its second part would start, or would have a
/// length, beyond what 32 bits hold.
pub proof fn can_place_exactly(done: i32)
    ensures
        can_place(done) <==> -0x7fff_ff99 <= done <= 0x7fff_fff3,
{
}

/// Pausing or resuming changes the icon in the middle and nothing else.
pub proof fn toggle_changes_icon(title: &str, done: i32, playing: Screen, paused: Screen)
    requires
        can_show(title@),
        can_place(done),
        call_ensures(track_screen, (title, done, true), playing),
        call_ensures(track_screen, (title, done, false), paused),
    ensures
        playing.toggle.icon == Icon::Pause,
        paused.toggle.icon == Icon::Play,
        playing.toggle.center == paused.toggle.center,
        playing.title.text@ == paused.title.text@,
        playing.title.center == paused.title.center,
        playing.elapsed == paused.elapsed,
        playing.remaining == paused.remaining,
        playing.backward == paused.backward,
        playing.forward == paused.forward,
{
}

} // verus!
