use media_widget::buttons::{Button, ButtonAction, ButtonStage, ButtonTask, BUTTONS_REST_MS};
use media_widget::display::{DisplayAction, DisplayStage, DisplayTask};
use media_widget::le::i32_from_le;
use media_widget::media::{
    is_playing, toggle_command, track_duration, track_position, Characteristic, MediaCommand,
};

#[test]
fn integers_are_little_endian() {
    assert_eq!(i32_from_le(&[0x78, 0x56, 0x34, 0x12]), 0x12345678);
    assert_eq!(i32_from_le(&[0xff, 0xff, 0xff, 0xff]), -1);
    assert_eq!(i32_from_le(&[0x00, 0x00, 0x00, 0x80]), i32::MIN);
    assert_eq!(i32_from_le(&[0xff, 0xff, 0xff, 0x7f, 9]), i32::MAX);
    for value in [0, 1, -2, 123_456, -987_654_321] {
        assert_eq!(i32_from_le(&i32::to_le_bytes(value)), value);
    }
}

#[test]
fn lengths_are_read_from_four_bytes() {
    assert_eq!(track_duration(&[0x10, 0x27, 0, 0, 1]), 10_000);
    assert_eq!(track_position(&[0x01, 0, 0, 0, 1]), 1);
}

#[test]
fn state_one_is_playing() {
    assert!(is_playing(&[1]));
    assert!(is_playing(&[1, 2, 3]));
    assert!(!is_playing(&[0, 1]));
    assert!(!is_playing(&[2]));
    assert!(!is_playing(&[]));
}

#[test]
fn toggling_pauses_what_plays() {
    assert_eq!(toggle_command(&[1]), MediaCommand::Pause);
    assert_eq!(toggle_command(&[0]), MediaCommand::Play);
    assert_eq!(toggle_command(&[2]), MediaCommand::Play);
    assert_eq!(toggle_command(&[]), MediaCommand::Play);
}

#[test]
fn commands_have_their_opcodes() {
    assert_eq!(MediaCommand::Play.opcode(), 0x01);
    assert_eq!(MediaCommand::Pause.opcode(), 0x02);
    assert_eq!(MediaCommand::PreviousTrack.opcode(), 0x30);
    assert_eq!(MediaCommand::NextTrack.opcode(), 0x31);
}

#[test]
fn opcodes_tell_commands_apart() {
    let commands = [
        MediaCommand::Play,
        MediaCommand::Pause,
        MediaCommand::PreviousTrack,
        MediaCommand::NextTrack,
    ];
    for one in commands {
        for other in commands {
            assert_eq!(one.opcode() == other.opcode(), one == other);
        }
    }
}

fn reply(bytes: &[u8]) -> ([u8; 64], usize) {
    let mut data = [0u8; 64];
    data[..bytes.len()].copy_from_slice(bytes);
    (data, bytes.len())
}

/// Runs one round of the display task, with a phone whose track is a minute
/// long, and returns the actions.
fn display_round(task: &mut DisplayTask, title: &[u8], state: u8) -> Vec<DisplayAction> {
    let mut actions = Vec::new();
    loop {
        let action = task.action();
        actions.push(action);
        match action {
            DisplayAction::Read(characteristic) | DisplayAction::ReadByUuid(characteristic) => {
                let (data, amount) = match characteristic {
                    Characteristic::TrackTitle => reply(title),
                    Characteristic::TrackDuration => reply(&6000i32.to_le_bytes()),
                    Characteristic::TrackPosition => reply(&1500i32.to_le_bytes()),
                    Characteristic::MediaState => reply(&[state]),
                };
                task.on_value(&data, amount);
            }
            DisplayAction::Sleep(_) => {
                task.on_done();
                return actions;
            }
            _ => task.on_done(),
        }
    }
}

#[test]
fn display_round_goes_through_its_actions() {
    let mut task = DisplayTask::new();
    let actions = display_round(&mut task, b"Yesterday", 1);
    assert_eq!(
        actions,
        [
            DisplayAction::Lock,
            DisplayAction::Find(Characteristic::TrackTitle),
            DisplayAction::Read(Characteristic::TrackTitle),
            DisplayAction::Find(Characteristic::TrackDuration),
            DisplayAction::Read(Characteristic::TrackDuration),
            DisplayAction::Find(Characteristic::TrackPosition),
            DisplayAction::Read(Characteristic::TrackPosition),
            DisplayAction::ReadByUuid(Characteristic::MediaState),
            DisplayAction::Draw,
            DisplayAction::Unlock,
            DisplayAction::Sleep(1000),
        ]
    );
    assert_eq!(task.stage, DisplayStage::Lock);
}

#[test]
fn display_draws_what_it_read() {
    let mut task = DisplayTask::new();
    assert_eq!(task.reading.title, "");
    display_round(&mut task, b"Yesterday", 1);
    assert_eq!(task.reading.title, "Yesterday");
    assert_eq!(task.reading.duration, 6000);
    assert_eq!(task.reading.position, 1);
    assert!(task.reading.playing);
    display_round(&mut task, &[0xff], 2);
    assert_eq!(task.reading.title, "");
    assert_eq!(task.reading.position, 2);
    assert!(!task.reading.playing);
}

/// Runs one cycle of the button task and returns the actions.
fn button_cycle(pressed: [bool; 3], state: u8) -> Vec<ButtonAction> {
    let mut task = ButtonTask::new();
    let mut actions = Vec::new();
    loop {
        let action = task.action();
        actions.push(action);
        match action {
            ButtonAction::Poll(button) => task.on_level(match button {
                Button::Left => pressed[0],
                Button::Middle => pressed[1],
                Button::Right => pressed[2],
            }),
            ButtonAction::ReadByUuid(_) => task.on_value(&[state, 0, 0, 0, 0, 0, 0, 0]),
            ButtonAction::Sleep(_) => {
                task.on_done();
                assert_eq!(task.stage, ButtonStage::Poll(Button::Left));
                return actions;
            }
            _ => task.on_done(),
        }
    }
}

#[test]
fn idle_buttons_send_nothing() {
    assert_eq!(
        button_cycle([false; 3], 1),
        [
            ButtonAction::Poll(Button::Left),
            ButtonAction::Poll(Button::Middle),
            ButtonAction::Poll(Button::Right),
            ButtonAction::Sleep(BUTTONS_REST_MS),
        ]
    );
    assert_eq!(BUTTONS_REST_MS, 20);
}

#[test]
fn all_buttons_send_their_commands() {
    for (state, toggle) in [(1, MediaCommand::Pause), (0, MediaCommand::Play)] {
        assert_eq!(
            button_cycle([true; 3], state),
            [
                ButtonAction::Poll(Button::Left),
                ButtonAction::Lock,
                ButtonAction::Write(MediaCommand::PreviousTrack),
                ButtonAction::Unlock,
                ButtonAction::Poll(Button::Middle),
                ButtonAction::Lock,
                ButtonAction::ReadByUuid(Characteristic::MediaState),
                ButtonAction::Write(toggle),
                ButtonAction::Unlock,
                ButtonAction::Poll(Button::Right),
                ButtonAction::Lock,
                ButtonAction::Write(MediaCommand::NextTrack),
                ButtonAction::Unlock,
                ButtonAction::Sleep(20),
            ]
        );
    }
}

#[test]
fn each_button_has_its_own_command() {
    let sent = |pressed| -> Vec<MediaCommand> {
        button_cycle(pressed, 2)
            .into_iter()
            .filter_map(|action| match action {
                ButtonAction::Write(command) => Some(command),
                _ => None,
            })
            .collect()
    };
    assert_eq!(sent([true, false, false]), [MediaCommand::PreviousTrack]);
    assert_eq!(sent([false, true, false]), [MediaCommand::Play]);
    assert_eq!(sent([false, false, true]), [MediaCommand::NextTrack]);
}

#[test]
fn requests_never_overlap() {
    let mut display = DisplayTask::new();
    let mut buttons = ButtonTask::new();
    let mut owner: Option<&str> = None;
    let mut seed: u32 = 1;
    let mut turns = [0, 0];
    for _ in 0..20_000 {
        let display_requests = matches!(
            display.action(),
            DisplayAction::Find(_) | DisplayAction::Read(_) | DisplayAction::ReadByUuid(_)
        );
        let buttons_request =
            matches!(buttons.action(), ButtonAction::ReadByUuid(_) | ButtonAction::Write(_));
        assert!(!(display_requests && buttons_request));
        assert!(!display_requests || owner == Some("display"));
        assert!(!buttons_request || owner == Some("buttons"));
        seed = seed.wrapping_mul(1_664_525).wrapping_add(1_013_904_223);
        if seed & 0x1_0000 == 0 {
            match display.action() {
                DisplayAction::Lock => {
                    if owner.is_none() {
                        owner = Some("display");
                        turns[0] += 1;
                        display.on_done();
                    }
                }
                DisplayAction::Read(_) | DisplayAction::ReadByUuid(_) => {
                    display.on_value(&[1; 64], 1)
                }
                DisplayAction::Unlock => {
                    owner = None;
                    display.on_done();
                }
                _ => display.on_done(),
            }
        } else {
            match buttons.action() {
                ButtonAction::Lock => {
                    if owner.is_none() {
                        owner = Some("buttons");
                        turns[1] += 1;
                        buttons.on_done();
                    }
                }
                ButtonAction::Poll(_) => buttons.on_level(seed & 0x2_0000 == 0),
                ButtonAction::ReadByUuid(_) => buttons.on_value(&[1; 8]),
                ButtonAction::Unlock => {
                    owner = None;
                    buttons.on_done();
                }
                _ => buttons.on_done(),
            }
        }
    }
    assert!(turns[0] > 100 && turns[1] > 100);
}
