//! The task that watches the buttons and sends their commands to the phone.
//!
//! A cycle looks at the left, the middle and the right button in turn. For one
//! that is pressed it takes the lock on the connection, sends the button's
//! command and gives the lock back. Then it rests. The task says what to do next;
//! the firmware does it and reports back.

use vstd::prelude::*;

use crate::media::{says_playing, toggle_command, toggle_of, Characteristic, MediaCommand};

verus! {

/// Size of the buffer that the media state is read into, in bytes.
pub const STATE_BUFFER_LEN: usize = 8;

/// How long the task rests between two cycles, in milliseconds.
pub const BUTTONS_REST_MS: u64 = 20;

#[derive(Debug, Clone, Copy, PartialEq, Eq, Structural)]
pub enum Button {
    Left,
    Middle,
    Right,
}

/// What the task wants done.
#[derive(Debug, Clone, Copy, PartialEq, Eq, Structural)]
pub enum ButtonAction {
    /// See whether the button's line is low: it is while the button is pressed.
    Poll(Button),
    /// Take the lock on the connection.
    Lock,
    /// Look up and read a characteristic in one request, into a cleared buffer.
    ReadByUuid(Characteristic),
    /// Write the command to the media control point.
    Write(MediaCommand),
    /// Give the lock back.
    Unlock,
    /// Rest for so many milliseconds.
    Sleep(u64),
}

/// How far a cycle has come.
#[derive(Debug, Clone, Copy, PartialEq, Eq, Structural)]
pub enum ButtonStage {
    Poll(Button),
    Lock(Button),
    ReadState,
    Write(MediaCommand),
    Unlock(Button),
    Sleep,
}

/// How an action ended.
#[derive(Debug, Clone, Copy, PartialEq, Eq, Structural)]
pub enum ButtonOutcome {
    /// The line of the button was low, or it was not.
    Level(bool),
    /// The media state said that a track is playing, or it did not.
    State(bool),
    /// The action was done; there is nothing to tell.
    Done,
}

/// The button whose press sends a command.
pub open spec fn button_of(command: MediaCommand) -> Button {
    match command {
        MediaCommand::PreviousTrack => Button::Left,
        MediaCommand::Play | MediaCommand::Pause => Button::Middle,
        MediaCommand::NextTrack => Button::Right,
    }
}

/// What follows once a button has been dealt with.
pub open spec fn after_button(button: Button) -> ButtonStage {
    match button {
        Button::Left => ButtonStage::Poll(Button::Middle),
        Button::Middle => ButtonStage::Poll(Button::Right),
        Button::Right => ButtonStage::Sleep,
    }
}

impl ButtonStage {
    /// What is to be done at the stage.
    pub open spec fn spec_action(self) -> ButtonAction {
        match self {
            ButtonStage::Poll(button) => ButtonAction::Poll(button),
            ButtonStage::Lock(_) => ButtonAction::Lock,
            ButtonStage::ReadState => ButtonAction::ReadByUuid(Characteristic::MediaState),
            ButtonStage::Write(command) => ButtonAction::Write(command),
            ButtonStage::Unlock(_) => ButtonAction::Unlock,
            ButtonStage::Sleep => ButtonAction::Sleep(BUTTONS_REST_MS),
        }
    }

    /// Whether the action of the stage can end in `outcome`.
    pub open spec fn accepts(self, outcome: ButtonOutcome) -> bool {
        match self {
            ButtonStage::Poll(_) => outcome is Level,
            ButtonStage::ReadState => outcome is State,
            _ => outcome is Done,
        }
    }

    /// The stage that follows when the action ended in `outcome`.
    pub open spec fn next(self, outcome: ButtonOutcome) -> ButtonStage {
        match self {
            ButtonStage::Poll(button) => if outcome == ButtonOutcome::Level(true) {
                ButtonStage::Lock(button)
            } else {
                after_button(button)
            },
            ButtonStage::Lock(Button::Left) => ButtonStage::Write(MediaCommand::PreviousTrack),
            ButtonStage::Lock(Button::Middle) => ButtonStage::ReadState,
            ButtonStage::Lock(Button::Right) => ButtonStage::Write(MediaCommand::NextTrack),
            ButtonStage::ReadState => ButtonStage::Write(
                toggle_of(outcome == ButtonOutcome::State(true)),
            ),
            ButtonStage::Write(command) => ButtonStage::Unlock(button_of(command)),
            ButtonStage::Unlock(button) => after_button(button),
            ButtonStage::Sleep => ButtonStage::Poll(Button::Left),
        }
    }

    /// Whether the lock is held at the stage: it has been taken and is not yet
    /// given back.
    pub open spec fn holds_lock(self) -> bool {
        self is ReadState || self is Write || self is Unlock
    }
}

impl ButtonAction {
    /// Whether the action is a request to the phone.
    pub open spec fn is_request(self) -> bool {
        self is ReadByUuid || self is Write
    }
}

/// The task: how far its cycle has come.
#[derive(Debug, Clone, Copy, PartialEq, Eq, Structural)]
pub struct ButtonTask {
    pub stage: ButtonStage,
}

/// What follows once `button` has been dealt with.
fn stage_after(button: Button) -> (stage: ButtonStage)
    ensures
        stage == after_button(button),
{
    match button {
        Button::Left => ButtonStage::Poll(Button::Middle),
        Button::Middle => ButtonStage::Poll(Button::Right),
        Button::Right => ButtonStage::Sleep,
    }
}

impl ButtonTask {
    /// A task at the start of a cycle.
    pub fn new() -> (task: Self)
        ensures
            task.stage == ButtonStage::Poll(Button::Left),
    {
        ButtonTask { stage: ButtonStage::Poll(Button::Left) }
    }

    /// What is to be done next.
    pub fn action(&self) -> (action: ButtonAction)
        ensures
            action == self.stage.spec_action(),
            self.stage matches ButtonStage::Poll(button) ==> action == ButtonAction::Poll(button),
            self.stage is Lock ==> action == ButtonAction::Lock,
            self.stage is ReadState ==> action == ButtonAction::ReadByUuid(
                Characteristic::MediaState,
            ),
            self.stage matches ButtonStage::Write(command) ==> action == ButtonAction::Write(
                command,
            ),
            self.stage is Unlock ==> action == ButtonAction::Unlock,
            self.stage is Sleep ==> action == ButtonAction::Sleep(20),
    {
        match self.stage {
            ButtonStage::Poll(button) => ButtonAction::Poll(button),
            ButtonStage::Lock(_) => ButtonAction::Lock,
            ButtonStage::ReadState => ButtonAction::ReadByUuid(Characteristic::MediaState),
            ButtonStage::Write(command) => ButtonAction::Write(command),
            ButtonStage::Unlock(_) => ButtonAction::Unlock,
            ButtonStage::Sleep => ButtonAction::Sleep(BUTTONS_REST_MS),
        }
    }

    /// Reports whether the line of the button that was looked at is low.
    pub fn on_level(&mut self, low: bool)
        requires
            old(self).stage.spec_action() is Poll,
        ensures
            final(self).stage == old(self).stage.next(ButtonOutcome::Level(low)),
            old(self).stage matches ButtonStage::Poll(button) && {
                &&& low ==> final(self).stage == ButtonStage::Lock(button)
                &&& !low && button == Button::Left ==> final(self).stage == ButtonStage::Poll(
                    Button::Middle,
                )
                &&& !low && button == Button::Middle ==> final(self).stage == ButtonStage::Poll(
                    Button::Right,
                )
                &&& !low && button == Button::Right ==> final(self).stage == ButtonStage::Sleep
            },
    {
        if let ButtonStage::Poll(button) = self.stage {
            self.stage = if low {
                ButtonStage::Lock(button)
            } else {
                stage_after(button)
            };
        }
    }

    /// Reports the media state that was read, which decides between pausing and
    /// resuming.
    pub fn on_value(&mut self, state: &[u8; 8])
        requires
            old(self).stage.spec_action() is ReadByUuid,
        ensures
            final(self).stage == old(self).stage.next(ButtonOutcome::State(says_playing(state@))),
            state@[0] == 0x01 ==> final(self).stage == ButtonStage::Write(MediaCommand::Pause),
            state@[0] != 0x01 ==> final(self).stage == ButtonStage::Write(MediaCommand::Play),
    {
        self.stage = ButtonStage::Write(toggle_command(state));
    }

    /// Reports that the action is done, where it neither looks nor reads.
    pub fn on_done(&mut self)
        requires
            old(self).stage.accepts(ButtonOutcome::Done),
        ensures
            final(self).stage == old(self).stage.next(ButtonOutcome::Done),
            match old(self).stage {
                ButtonStage::Lock(Button::Left) => final(self).stage == ButtonStage::Write(
                    MediaCommand::PreviousTrack,
                ),
                ButtonStage::Lock(Button::Middle) => final(self).stage == ButtonStage::ReadState,
                ButtonStage::Lock(Button::Right) => final(self).stage == ButtonStage::Write(
                    MediaCommand::NextTrack,
                ),
                ButtonStage::Write(MediaCommand::PreviousTrack) => final(self).stage
                    == ButtonStage::Unlock(Button::Left),
                ButtonStage::Write(MediaCommand::NextTrack) => final(self).stage
                    == ButtonStage::Unlock(Button::Right),
                ButtonStage::Write(_) => final(self).stage == ButtonStage::Unlock(Button::Middle),
                ButtonStage::Unlock(Button::Left) => final(self).stage == ButtonStage::Poll(
                    Button::Middle,
                ),
                ButtonStage::Unlock(Button::Middle) => final(self).stage == ButtonStage::Poll(
                    Button::Right,
                ),
                ButtonStage::Unlock(Button::Right) => final(self).stage == ButtonStage::Sleep,
                ButtonStage::Sleep => final(self).stage == ButtonStage::Poll(Button::Left),
                ButtonStage::Poll(_) | ButtonStage::ReadState => false,
            },
    {
        self.stage = match self.stage {
            ButtonStage::Lock(Button::Left) => ButtonStage::Write(MediaCommand::PreviousTrack),
            ButtonStage::Lock(Button::Middle) => ButtonStage::ReadState,
            ButtonStage::Lock(Button::Right) => ButtonStage::Write(MediaCommand::NextTrack),
            ButtonStage::Write(MediaCommand::PreviousTrack) => ButtonStage::Unlock(Button::Left),
            ButtonStage::Write(MediaCommand::NextTrack) => ButtonStage::Unlock(Button::Right),
            ButtonStage::Write(_) => ButtonStage::Unlock(Button::Middle),
            ButtonStage::Unlock(button) => stage_after(button),
            ButtonStage::Sleep => ButtonStage::Poll(Button::Left),
            ButtonStage::Poll(_) | ButtonStage::ReadState => self.stage,
        };
    }
}

/// The lock is held whenever a request goes out to the phone; it is not held
/// while the task looks at a button, waits for the lock or rests.
pub proof fn button_requests_under_lock(stage: ButtonStage)
    ensures
        stage.spec_action().is_request() ==> stage.holds_lock(),
        stage.spec_action() is Poll ==> !stage.holds_lock(),
        stage.spec_action() is Lock ==> !stage.holds_lock(),
        stage.spec_action() is Sleep ==> !stage.holds_lock(),
{
}

/// The lock passes to the task when taking it is done, and from it when giving
/// it back is done; no other action moves it.
pub proof fn button_lock_moves(stage: ButtonStage, outcome: ButtonOutcome)
    requires
        stage.accepts(outcome),
    ensures
        !stage.holds_lock() && stage.next(outcome).holds_lock() <==> stage.spec_action() is Lock,
        stage.holds_lock() && !stage.next(outcome).holds_lock() <==> stage.spec_action() is Unlock,
{
}

/// The actions that the task performs from `stage` on while they end in
/// `outcomes`, and the stage it is at then.
pub open spec fn performed(stage: ButtonStage, outcomes: Seq<ButtonOutcome>) -> (
    Seq<ButtonAction>,
    ButtonStage,
)
    decreases outcomes.len(),
{
    if outcomes.len() == 0 {
        (Seq::empty(), stage)
    } else {
        let rest = performed(stage.next(outcomes[0]), outcomes.drop_first());
        (seq![stage.spec_action()] + rest.0, rest.1)
    }
}

/// How the actions end that deal with a button: one that is pressed leads to
/// more actions. `playing` is what the media state says.
pub open spec fn button_outcomes(button: Button, pressed: bool, playing: bool) -> Seq<
    ButtonOutcome,
> {
    if !pressed {
        seq![ButtonOutcome::Level(false)]
    } else if button == Button::Middle {
        seq![
            ButtonOutcome::Level(true),
            ButtonOutcome::Done,
            ButtonOutcome::State(playing),
            ButtonOutcome::Done,
            ButtonOutcome::Done,
        ]
    } else {
        seq![
            ButtonOutcome::Level(true),
            ButtonOutcome::Done,
            ButtonOutcome::Done,
            ButtonOutcome::Done,
        ]
    }
}

/// The actions that deal with a button.
pub open spec fn button_actions(button: Button, pressed: bool, playing: bool) -> Seq<
    ButtonAction,
> {
    if !pressed {
        seq![ButtonAction::Poll(button)]
    } else {
        match button {
            Button::Left => seq![
                ButtonAction::Poll(button),
                ButtonAction::Lock,
                ButtonAction::Write(MediaCommand::PreviousTrack),
                ButtonAction::Unlock,
            ],
            Button::Middle => seq![
                ButtonAction::Poll(button),
                ButtonAction::Lock,
                ButtonAction::ReadByUuid(Characteristic::MediaState),
                ButtonAction::Write(
                    if playing {
                        MediaCommand::Pause
                    } else {
                        MediaCommand::Play
                    },
                ),
                ButtonAction::Unlock,
            ],
            Button::Right => seq![
                ButtonAction::Poll(button),
                ButtonAction::Lock,
                ButtonAction::Write(MediaCommand::NextTrack),
                ButtonAction::Unlock,
            ],
        }
    }
}

/// A button is dealt with by looking at it, and, if it is pressed, by sending
/// its command under the lock: the left one goes back a track, the right one
/// goes on to the next, the middle one pauses what is playing and resumes what
/// is not.
pub proof fn button_dealt_with(button: Button, pressed: bool, playing: bool)
    ensures
        performed(
            ButtonStage::Poll(button),
            button_outcomes(button, pressed, playing),
        ) == (button_actions(button, pressed, playing), after_button(button)),
{
    reveal_with_fuel(performed, 6);
    let outcomes = button_outcomes(button, pressed, playing);
    let got = performed(ButtonStage::Poll(button), outcomes);
    assert(got.0 =~= button_actions(button, pressed, playing));
}

/// What is performed on one run of outcomes after another.
proof fn performed_concat(
    stage: ButtonStage,
    first: Seq<ButtonOutcome>,
    second: Seq<ButtonOutcome>,
)
    ensures
        performed(stage, first + second) == (
            performed(stage, first).0 + performed(performed(stage, first).1, second).0,
            performed(performed(stage, first).1, second).1,
        ),
    decreases first.len(),
{
    if first.len() == 0 {
        assert(first + second =~= second);
        assert(performed(stage, first).0 + performed(stage, second).0 =~= performed(
            stage,
            second,
        ).0);
    } else {
        assert((first + second).drop_first() =~= first.drop_first() + second);
        performed_concat(stage.next(first[0]), first.drop_first(), second);
        assert(performed(stage, first + second).0 =~= performed(stage, first).0 + performed(
            performed(stage, first).1,
            second,
        ).0);
    }
}

/// A cycle deals with the left, the middle and the right button in this order,
/// rests, and leads to the next cycle.
pub proof fn cycle(left: bool, middle: bool, right: bool, playing: bool)
    ensures
        performed(
            ButtonStage::Poll(Button::Left),
            button_outcomes(Button::Left, left, playing) + (button_outcomes(
                Button::Middle,
                middle,
                playing,
            ) + (button_outcomes(Button::Right, right, playing) + seq![ButtonOutcome::Done])),
        ) == (
            button_actions(Button::Left, left, playing) + (button_actions(
                Button::Middle,
                middle,
                playing,
            ) + (button_actions(Button::Right, right, playing) + seq![
                ButtonAction::Sleep(BUTTONS_REST_MS),
            ])),
            ButtonStage::Poll(Button::Left),
        ),
{
    let left_outcomes = button_outcomes(Button::Left, left, playing);
    let middle_outcomes = button_outcomes(Button::Middle, middle, playing);
    let right_outcomes = button_outcomes(Button::Right, right, playing);
    let rest = seq![ButtonOutcome::Done];
    button_dealt_with(Button::Left, left, playing);
    button_dealt_with(Button::Middle, middle, playing);
    button_dealt_with(Button::Right, right, playing);
    reveal_with_fuel(performed, 2);
    assert(performed(ButtonStage::Sleep, rest).0 =~= seq![ButtonAction::Sleep(BUTTONS_REST_MS)]);
    performed_concat(ButtonStage::Poll(Button::Right), right_outcomes, rest);
    performed_concat(
        ButtonStage::Poll(Button::Middle),
        middle_outcomes,
        right_outcomes + rest,
    );
    performed_concat(
        ButtonStage::Poll(Button::Left),
        left_outcomes,
        middle_outcomes + (right_outcomes + rest),
    );
}

/// A button that is not pressed is looked at and passed by: the middle one
/// follows the left one, the right one the middle one, and a rest of twenty
/// milliseconds the right one.
pub proof fn idle_button(button: Button)
    ensures
        performed(ButtonStage::Poll(button), seq![ButtonOutcome::Level(false)]).0 == seq![
            ButtonAction::Poll(button),
        ],
        performed(ButtonStage::Poll(button), seq![ButtonOutcome::Level(false)]).1.spec_action()
            == match button {
            Button::Left => ButtonAction::Poll(Button::Middle),
            Button::Middle => ButtonAction::Poll(Button::Right),
            Button::Right => ButtonAction::Sleep(20),
        },
{
    reveal_with_fuel(performed, 2);
    assert(performed(ButtonStage::Poll(button), seq![ButtonOutcome::Level(false)]).0 =~= seq![
        ButtonAction::Poll(button),
    ]);
}

/// A press of the left or of the right button sends one byte, under the lock: 0x30
/// goes back a track, 0x31 goes on to the next. Then the next button is looked
/// at, or the task rests.
pub proof fn skip_button(button: Button)
    requires
        button != Button::Middle,
    ensures
        ({
            let outcomes = seq![
                ButtonOutcome::Level(true),
                ButtonOutcome::Done,
                ButtonOutcome::Done,
                ButtonOutcome::Done,
            ];
            let (actions, after) = performed(ButtonStage::Poll(button), outcomes);
            &&& actions.len() == 4
            &&& actions[0] == ButtonAction::Poll(button)
            &&& actions[1] == ButtonAction::Lock
            &&& actions[2] matches ButtonAction::Write(command) && command.spec_opcode() == (
            if button == Button::Left {
                0x30u8
            } else {
                0x31u8
            })
            &&& actions[3] == ButtonAction::Unlock
            &&& after.spec_action() == if button == Button::Left {
                ButtonAction::Poll(Button::Middle)
            } else {
                ButtonAction::Sleep(20)
            }
        }),
{
    reveal_with_fuel(performed, 5);
}

/// A press of the middle button asks the phone for its media state and then sends
/// one byte, both under one lock: 2 pauses what is playing, 1 resumes what is not.
/// Then the right button is looked at.
pub proof fn toggle_button(playing: bool)
    ensures
        ({
            let outcomes = seq![
                ButtonOutcome::Level(true),
                ButtonOutcome::Done,
                ButtonOutcome::State(playing),
                ButtonOutcome::Done,
                ButtonOutcome::Done,
            ];
            let (actions, after) = performed(ButtonStage::Poll(Button::Middle), outcomes);
            &&& actions.len() == 5
            &&& actions[0] == ButtonAction::Poll(Button::Middle)
            &&& actions[1] == ButtonAction::Lock
            &&& actions[2] == ButtonAction::ReadByUuid(Characteristic::MediaState)
            &&& actions[3] matches ButtonAction::Write(command) && command.spec_opcode() == (
            if playing {
                2u8
            } else {
                1u8
            })
            &&& actions[4] == ButtonAction::Unlock
            &&& after.spec_action() == ButtonAction::Poll(Button::Right)
        }),
{
    reveal_with_fuel(performed, 6);
}

/// What the report on an action can be: a level after a look at a button, the
/// media state after it was asked for, and otherwise that it is done. The lock is
/// held from the action behind `Lock` to `Unlock`.
pub proof fn reports_accepted(stage: ButtonStage, outcome: ButtonOutcome)
    ensures
        stage.spec_action() is Poll ==> (stage.accepts(outcome) <==> outcome is Level),
        stage.spec_action() is ReadByUuid ==> (stage.accepts(outcome) <==> outcome is State),
        !(stage.spec_action() is Poll || stage.spec_action() is ReadByUuid) ==> (stage.accepts(
            outcome,
        ) <==> outcome is Done),
        stage.holds_lock() <==> stage is ReadState || stage is Write || stage is Unlock,
{
}

/// As much can have come from the phone as the buffer holds.
pub proof fn whole_state_can_be_read(state: [u8; 8])
    ensures
        state@.len() == STATE_BUFFER_LEN,
{
}

} // verus!
