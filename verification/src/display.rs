//! The task that reads the track from the phone and draws it, over and over.
//!
//! A round takes the lock on the connection, looks up and reads the
//! characteristics of the track one after the other, draws the screen, gives the
//! lock back and rests. The task says what to do next; the firmware does it and
//! reports back.

use vstd::arithmetic::power::pow;
use vstd::prelude::*;
use vstd::utf8::{encode_utf8, valid_utf8};

use crate::le::{le_i32, le_i32_as_sent};
use crate::media::{is_playing, says_playing, track_duration, track_position, Characteristic};
use crate::title::{text_as_sent, text_of, track_title};

verus! {

/// Size of the buffer that a characteristic is read into, in bytes.
pub const READ_BUFFER_LEN: usize = 64;

/// How long the task rests between two rounds, in milliseconds.
pub const DISPLAY_REST_MS: u64 = 1000;

/// What the task wants done.
#[derive(Debug, Clone, Copy, PartialEq, Eq, Structural)]
pub enum DisplayAction {
    /// Take the lock on the connection.
    Lock,
    /// Look up a characteristic of the media service.
    Find(Characteristic),
    /// Read the characteristic that was looked up last into a cleared buffer.
    Read(Characteristic),
    /// Look up and read a characteristic in one request, into a cleared buffer.
    ReadByUuid(Characteristic),
    /// Draw what was read.
    Draw,
    /// Give the lock back.
    Unlock,
    /// Rest for so many milliseconds.
    Sleep(u64),
}

/// How far a round has come.
#[derive(Debug, Clone, Copy, PartialEq, Eq, Structural)]
pub enum DisplayStage {
    Lock,
    FindTitle,
    ReadTitle,
    FindDuration,
    ReadDuration,
    FindPosition,
    ReadPosition,
    ReadState,
    Draw,
    Unlock,
    Sleep,
}

/// A round, action by action.
pub open spec fn display_round() -> Seq<DisplayAction> {
    seq![
        DisplayAction::Lock,
        DisplayAction::Find(Characteristic::TrackTitle),
        DisplayAction::Read(Characteristic::TrackTitle),
        DisplayAction::Find(Characteristic::TrackDuration),
        DisplayAction::Read(Characteristic::TrackDuration),
        DisplayAction::Find(Characteristic::TrackPosition),
        DisplayAction::Read(Characteristic::TrackPosition),
        DisplayAction::ReadByUuid(Characteristic::MediaState),
        DisplayAction::Draw,
        DisplayAction::Unlock,
        DisplayAction::Sleep(DISPLAY_REST_MS),
    ]
}

impl DisplayStage {
    /// Where the stage stands in a round.
    pub open spec fn index(self) -> int {
        match self {
            DisplayStage::Lock => 0,
            DisplayStage::FindTitle => 1,
            DisplayStage::ReadTitle => 2,
            DisplayStage::FindDuration => 3,
            DisplayStage::ReadDuration => 4,
            DisplayStage::FindPosition => 5,
            DisplayStage::ReadPosition => 6,
            DisplayStage::ReadState => 7,
            DisplayStage::Draw => 8,
            DisplayStage::Unlock => 9,
            DisplayStage::Sleep => 10,
        }
    }

    /// What is to be done at the stage.
    pub open spec fn spec_action(self) -> DisplayAction {
        display_round()[self.index()]
    }

    /// Whether `after` is the stage that follows; a round follows a round.
    pub open spec fn followed_by(self, after: DisplayStage) -> bool {
        after.index() == (self.index() + 1) % 11
    }

    /// Whether the lock is held at the stage: it has been taken and is not yet
    /// given back.
    pub open spec fn holds_lock(self) -> bool {
        0 < self.index() < 10
    }

    /// The stage that follows.
    fn following(self) -> (after: DisplayStage)
        ensures
            self.followed_by(after),
    {
        match self {
            DisplayStage::Lock => DisplayStage::FindTitle,
            DisplayStage::FindTitle => DisplayStage::ReadTitle,
            DisplayStage::ReadTitle => DisplayStage::FindDuration,
            DisplayStage::FindDuration => DisplayStage::ReadDuration,
            DisplayStage::ReadDuration => DisplayStage::FindPosition,
            DisplayStage::FindPosition => DisplayStage::ReadPosition,
            DisplayStage::ReadPosition => DisplayStage::ReadState,
            DisplayStage::ReadState => DisplayStage::Draw,
            DisplayStage::Draw => DisplayStage::Unlock,
            DisplayStage::Unlock => DisplayStage::Sleep,
            DisplayStage::Sleep => DisplayStage::Lock,
        }
    }
}

impl DisplayAction {
    /// Whether the action ends with a value that was read.
    pub open spec fn yields_value(self) -> bool {
        self is Read || self is ReadByUuid
    }

    /// Whether the action is a request to the phone.
    pub open spec fn is_request(self) -> bool {
        self is Find || self is Read || self is ReadByUuid
    }
}

/// What is known of the track.
#[derive(Debug, PartialEq, Eq)]
pub struct TrackReading {
    pub title: String,
    /// In hundredths of a second.
    pub duration: i32,
    /// In hundredths of a second.
    pub position: i32,
    pub playing: bool,
}

/// What is known of the track, with the title as characters.
pub struct TrackView {
    pub title: Seq<char>,
    pub duration: int,
    pub position: int,
    pub playing: bool,
}

impl View for TrackReading {
    type V = TrackView;

    open spec fn view(&self) -> TrackView {
        TrackView {
            title: self.title@,
            duration: self.duration as int,
            position: self.position as int,
            playing: self.playing,
        }
    }
}

impl TrackView {
    /// What is known once `characteristic` was read: the buffer holds `data`, of
    /// which `amount` bytes came from the phone.
    ///
    /// The media state gives the progress too. The track position that was read
    /// before it is not used.
    pub open spec fn with(self, characteristic: Characteristic, data: Seq<u8>, amount: int) -> Self {
        match characteristic {
            Characteristic::TrackTitle => TrackView {
                title: text_of(data.subrange(0, amount)),
                ..self
            },
            Characteristic::TrackDuration => TrackView { duration: le_i32(data), ..self },
            Characteristic::TrackPosition => self,
            Characteristic::MediaState => TrackView {
                position: le_i32(data),
                playing: says_playing(data),
                ..self
            },
        }
    }
}

/// The task: how far its round has come, and what it knows of the track.
#[derive(Debug, PartialEq, Eq)]
pub struct DisplayTask {
    pub stage: DisplayStage,
    pub reading: TrackReading,
}

impl DisplayTask {
    /// A task at the start of a round that knows nothing of the track.
    pub fn new() -> (task: Self)
        ensures
            task.stage == DisplayStage::Lock,
            task.reading@ == (TrackView {
                title: Seq::empty(),
                duration: 0,
                position: 0,
                playing: false,
            }),
            task.reading.title@.len() == 0,
            task.reading.duration == 0,
            task.reading.position == 0,
            !task.reading.playing,
    {
        DisplayTask {
            stage: DisplayStage::Lock,
            reading: TrackReading {
                title: String::new(),
                duration: 0,
                position: 0,
                playing: false,
            },
        }
    }

    /// What is to be done next.
    pub fn action(&self) -> (action: DisplayAction)
        ensures
            action == self.stage.spec_action(),
            self.stage == DisplayStage::Lock ==> action == DisplayAction::Lock,
            self.stage == DisplayStage::FindTitle
                ==> action == DisplayAction::Find(Characteristic::TrackTitle),
            self.stage == DisplayStage::ReadTitle
                ==> action == DisplayAction::Read(Characteristic::TrackTitle),
            self.stage == DisplayStage::FindDuration
                ==> action == DisplayAction::Find(Characteristic::TrackDuration),
            self.stage == DisplayStage::ReadDuration
                ==> action == DisplayAction::Read(Characteristic::TrackDuration),
            self.stage == DisplayStage::FindPosition
                ==> action == DisplayAction::Find(Characteristic::TrackPosition),
            self.stage == DisplayStage::ReadPosition
                ==> action == DisplayAction::Read(Characteristic::TrackPosition),
            self.stage == DisplayStage::ReadState
                ==> action == DisplayAction::ReadByUuid(Characteristic::MediaState),
            self.stage == DisplayStage::Draw ==> action == DisplayAction::Draw,
            self.stage == DisplayStage::Unlock ==> action == DisplayAction::Unlock,
            self.stage == DisplayStage::Sleep ==> action == DisplayAction::Sleep(1000),
    {
        match self.stage {
            DisplayStage::Lock => DisplayAction::Lock,
            DisplayStage::FindTitle => DisplayAction::Find(Characteristic::TrackTitle),
            DisplayStage::ReadTitle => DisplayAction::Read(Characteristic::TrackTitle),
            DisplayStage::FindDuration => DisplayAction::Find(Characteristic::TrackDuration),
            DisplayStage::ReadDuration => DisplayAction::Read(Characteristic::TrackDuration),
            DisplayStage::FindPosition => DisplayAction::Find(Characteristic::TrackPosition),
            DisplayStage::ReadPosition => DisplayAction::Read(Characteristic::TrackPosition),
            DisplayStage::ReadState => DisplayAction::ReadByUuid(Characteristic::MediaState),
            DisplayStage::Draw => DisplayAction::Draw,
            DisplayStage::Unlock => DisplayAction::Unlock,
            DisplayStage::Sleep => DisplayAction::Sleep(DISPLAY_REST_MS),
        }
    }

    /// Reports that the action is done, where it reads nothing.
    pub fn on_done(&mut self)
        requires
            !old(self).stage.spec_action().yields_value(),
        ensures
            old(self).stage.followed_by(final(self).stage),
            final(self).reading == old(self).reading,
            old(self).stage == DisplayStage::Lock ==> final(self).stage == DisplayStage::FindTitle,
            old(self).stage == DisplayStage::FindTitle
                ==> final(self).stage == DisplayStage::ReadTitle,
            old(self).stage == DisplayStage::FindDuration
                ==> final(self).stage == DisplayStage::ReadDuration,
            old(self).stage == DisplayStage::FindPosition
                ==> final(self).stage == DisplayStage::ReadPosition,
            old(self).stage == DisplayStage::Draw ==> final(self).stage == DisplayStage::Unlock,
            old(self).stage == DisplayStage::Unlock ==> final(self).stage == DisplayStage::Sleep,
            old(self).stage == DisplayStage::Sleep ==> final(self).stage == DisplayStage::Lock,
    {
        self.stage = self.stage.following();
    }

    /// Reports what a reading action has read: the buffer, of which the first
    /// `amount` bytes came from the phone.
    pub fn on_value(&mut self, data: &[u8; 64], amount: usize)
        requires
            old(self).stage.spec_action().yields_value(),
            amount <= READ_BUFFER_LEN,
        ensures
            old(self).stage.followed_by(final(self).stage),
            match old(self).stage.spec_action() {
                DisplayAction::Read(characteristic) | DisplayAction::ReadByUuid(characteristic) =>
                    final(self).reading@ == old(self).reading@.with(
                        characteristic,
                        data@,
                        amount as int,
                    ),
                _ => false,
            },
            old(self).stage == DisplayStage::ReadTitle ==> {
                let sent = data@.subrange(0, amount as int);
                &&& final(self).stage == DisplayStage::FindDuration
                &&& valid_utf8(sent) ==> encode_utf8(final(self).reading.title@) == sent
                &&& !valid_utf8(sent) ==> final(self).reading.title@.len() == 0
                &&& final(self).reading.duration == old(self).reading.duration
                &&& final(self).reading.position == old(self).reading.position
                &&& final(self).reading.playing == old(self).reading.playing
            },
            old(self).stage == DisplayStage::ReadDuration ==> {
                let raw = data@[0] + 0x100 * data@[1] + 0x1_0000 * data@[2] + 0x100_0000 * data@[3];
                &&& final(self).stage == DisplayStage::FindPosition
                &&& data@[3] < 0x80 ==> final(self).reading.duration == raw
                &&& data@[3] >= 0x80 ==> final(self).reading.duration == raw - 0x1_0000_0000
                &&& final(self).reading.title@ == old(self).reading.title@
                &&& final(self).reading.position == old(self).reading.position
                &&& final(self).reading.playing == old(self).reading.playing
            },
            old(self).stage == DisplayStage::ReadPosition ==> {
                &&& final(self).stage == DisplayStage::ReadState
                &&& final(self).reading.title@ == old(self).reading.title@
                &&& final(self).reading.duration == old(self).reading.duration
                &&& final(self).reading.position == old(self).reading.position
                &&& final(self).reading.playing == old(self).reading.playing
            },
            old(self).stage == DisplayStage::ReadState ==> {
                let raw = data@[0] + 0x100 * data@[1] + 0x1_0000 * data@[2] + 0x100_0000 * data@[3];
                &&& final(self).stage == DisplayStage::Draw
                &&& data@[3] < 0x80 ==> final(self).reading.position == raw
                &&& data@[3] >= 0x80 ==> final(self).reading.position == raw - 0x1_0000_0000
                &&& final(self).reading.playing <==> data@[0] == 0x01
                &&& final(self).reading.title@ == old(self).reading.title@
                &&& final(self).reading.duration == old(self).reading.duration
            },
    {
        match self.stage {
            DisplayStage::ReadTitle => {
                self.reading.title = track_title(data, amount).to_owned();
            },
            DisplayStage::ReadDuration => {
                self.reading.duration = track_duration(data);
            },
            DisplayStage::ReadState => {
                self.reading.playing = is_playing(data);
                self.reading.position = track_position(data);
            },
            _ => {},
        }
        self.stage = self.stage.following();
    }
}

/// The lock is held whenever a request goes out to the phone, and while the
/// screen is drawn; it is not held while the task waits for it or rests.
pub proof fn display_requests_under_lock(stage: DisplayStage)
    ensures
        stage.spec_action().is_request() ==> stage.holds_lock(),
        stage.spec_action() is Draw ==> stage.holds_lock(),
        stage.spec_action() is Lock ==> !stage.holds_lock(),
        stage.spec_action() is Sleep ==> !stage.holds_lock(),
{
}

/// The lock passes to the task when taking it is done, and from it when giving
/// it back is done; no other action moves it.
pub proof fn display_lock_moves(stage: DisplayStage, after: DisplayStage)
    requires
        stage.followed_by(after),
    ensures
        !stage.holds_lock() && after.holds_lock() <==> stage.spec_action() is Lock,
        stage.holds_lock() && !after.holds_lock() <==> stage.spec_action() is Unlock,
{
}

/// What is known of the track when `stage` actions of a round are done, where
/// `before` was known at its start and `replies` gives, for each action that
/// reads, the buffer and how much of it came from the phone.
pub open spec fn known_at(
    before: TrackView,
    replies: spec_fn(int) -> (Seq<u8>, int),
    stage: int,
) -> TrackView
    decreases stage,
{
    if stage <= 0 {
        before
    } else {
        let known = known_at(before, replies, stage - 1);
        let (data, amount) = replies(stage - 1);
        match display_round()[stage - 1] {
            DisplayAction::Read(characteristic) | DisplayAction::ReadByUuid(characteristic) =>
                known.with(characteristic, data, amount),
            _ => known,
        }
    }
}

/// What is drawn was read in the same round: it does not depend on what was
/// known when the round began. The title and the duration come from the reads of
/// those, the progress and whether the track plays from the media state.
pub proof fn drawn_as_read(before: TrackView, replies: spec_fn(int) -> (Seq<u8>, int))
    ensures
        known_at(before, replies, DisplayStage::Draw.index()) == (TrackView {
            title: text_of(
                replies(DisplayStage::ReadTitle.index()).0.subrange(
                    0,
                    replies(DisplayStage::ReadTitle.index()).1,
                ),
            ),
            duration: le_i32(replies(DisplayStage::ReadDuration.index()).0),
            position: le_i32(replies(DisplayStage::ReadState.index()).0),
            playing: says_playing(replies(DisplayStage::ReadState.index()).0),
        }),
{
    reveal_with_fuel(known_at, 9);
}

/// A round, from where the task starts until it is there again, takes the lock,
/// looks up and reads the title, the duration and the position, reads the media
/// state, draws, gives the lock back and rests for a second.
pub proof fn round_in_order(stages: Seq<DisplayStage>, actions: Seq<DisplayAction>)
    requires
        stages.len() == 12,
        actions.len() == 11,
        stages[0] == DisplayStage::Lock,
        forall|i: int| 0 <= i < 11 ==> (#[trigger] stages[i]).followed_by(stages[i + 1]),
        forall|i: int| 0 <= i < 11 ==> #[trigger] actions[i] == stages[i].spec_action(),
    ensures
        actions[0] == DisplayAction::Lock,
        actions[1] == DisplayAction::Find(Characteristic::TrackTitle),
        actions[2] == DisplayAction::Read(Characteristic::TrackTitle),
        actions[3] == DisplayAction::Find(Characteristic::TrackDuration),
        actions[4] == DisplayAction::Read(Characteristic::TrackDuration),
        actions[5] == DisplayAction::Find(Characteristic::TrackPosition),
        actions[6] == DisplayAction::Read(Characteristic::TrackPosition),
        actions[7] == DisplayAction::ReadByUuid(Characteristic::MediaState),
        actions[8] == DisplayAction::Draw,
        actions[9] == DisplayAction::Unlock,
        actions[10] == DisplayAction::Sleep(1000),
        stages[11] == DisplayStage::Lock,
{
    assert(stages[0].followed_by(stages[1]));
    assert(stages[1].followed_by(stages[2]));
    assert(stages[2].followed_by(stages[3]));
    assert(stages[3].followed_by(stages[4]));
    assert(stages[4].followed_by(stages[5]));
    assert(stages[5].followed_by(stages[6]));
    assert(stages[6].followed_by(stages[7]));
    assert(stages[7].followed_by(stages[8]));
    assert(stages[8].followed_by(stages[9]));
    assert(stages[9].followed_by(stages[10]));
    assert(stages[10].followed_by(stages[11]));
}

/// A value is awaited at the four stages that read, and at no other; the lock is
/// held at every stage but the first and the last.
pub proof fn stages_that_read(stage: DisplayStage)
    ensures
        stage.spec_action().yields_value() <==> stage == DisplayStage::ReadTitle || stage
            == DisplayStage::ReadDuration || stage == DisplayStage::ReadPosition || stage
            == DisplayStage::ReadState,
        stage.holds_lock() <==> stage != DisplayStage::Lock && stage != DisplayStage::Sleep,
{
}

/// What is drawn is what the phone sent in the same round: the title and the
/// duration that it sent when asked for those, and the progress that it sent with
/// the media state. It is shown as playing exactly when the first byte of that
/// state is 1.
pub proof fn drawn_as_sent(
    before: TrackView,
    replies: spec_fn(int) -> (Seq<u8>, int),
    title: Seq<char>,
    duration: i32,
    position: i32,
)
    requires
        replies(2).0.subrange(0, replies(2).1) == encode_utf8(title),
        replies(4).0.len() == 64,
        forall|i: int|
            0 <= i < 4 ==> (#[trigger] replies(4).0[i]) == ((duration as int % 0x1_0000_0000) / pow(
                256,
                i as nat,
            )) % 256,
        replies(7).0.len() == 64,
        forall|i: int|
            0 <= i < 4 ==> (#[trigger] replies(7).0[i]) == ((position as int % 0x1_0000_0000) / pow(
                256,
                i as nat,
            )) % 256,
    ensures
        known_at(before, replies, 8).title == title,
        known_at(before, replies, 8).duration == duration,
        known_at(before, replies, 8).position == position,
        known_at(before, replies, 8).playing <==> replies(7).0[0] == 1,
{
    drawn_as_read(before, replies);
    text_as_sent(title);
    le_i32_as_sent(duration, replies(4).0);
    le_i32_as_sent(position, replies(7).0);
}

/// As much can have come from the phone as the buffer holds.
pub proof fn whole_buffer_can_be_read(data: [u8; 64])
    ensures
        data@.len() == READ_BUFFER_LEN,
{
}

} // verus!
