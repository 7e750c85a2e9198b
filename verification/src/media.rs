//! What the phone says of the track that is playing, and what it can be told.

use vstd::arithmetic::power::pow;
use vstd::prelude::*;

use crate::le::{four_digits, i32_from_le, le_i32};

verus! {

/// The characteristics of the phone's media service that are read.
#[derive(Debug, Clone, Copy, PartialEq, Eq, Structural)]
pub enum Characteristic {
    TrackTitle,
    TrackDuration,
    TrackPosition,
    MediaState,
}

/// What the phone can be told.
#[derive(Debug, Clone, Copy, PartialEq, Eq, Structural)]
pub enum MediaCommand {
    Play,
    Pause,
    PreviousTrack,
    NextTrack,
}

impl MediaCommand {
    /// The byte that stands for the command at the media control point.
    pub open spec fn spec_opcode(self) -> u8 {
        match self {
            MediaCommand::Play => 0x01,
            MediaCommand::Pause => 0x02,
            MediaCommand::PreviousTrack => 0x30,
            MediaCommand::NextTrack => 0x31,
        }
    }

    /// The byte that stands for the command at the media control point.
    pub fn opcode(&self) -> (code: u8)
        ensures
            code == self.spec_opcode(),
            *self == MediaCommand::Play ==> code == 0x01,
            *self == MediaCommand::Pause ==> code == 0x02,
            *self == MediaCommand::PreviousTrack ==> code == 0x30,
            *self == MediaCommand::NextTrack ==> code == 0x31,
    {
        match self {
            MediaCommand::Play => 0x01,
            MediaCommand::Pause => 0x02,
            MediaCommand::PreviousTrack => 0x30,
            MediaCommand::NextTrack => 0x31,
        }
    }
}

/// Whether a media state says that a track is playing.
pub open spec fn says_playing(state: Seq<u8>) -> bool {
    state.len() > 0 && state[0] == 0x01
}

/// Whether the media state in `state` says that a track is playing.
pub fn is_playing(state: &[u8]) -> (playing: bool)
    ensures
        playing == says_playing(state@),
        playing <==> state@.len() > 0 && state@[0] == 0x01,
{
    match state.first() {
        Some(first) => *first == 0x01,
        None => false,
    }
}

/// The command that pauses what is playing and resumes what is not.
pub open spec fn toggle_of(playing: bool) -> MediaCommand {
    if playing {
        MediaCommand::Pause
    } else {
        MediaCommand::Play
    }
}

/// The command that the middle button sends when the phone's media state is
/// `state`: it pauses what is playing and resumes what is not.
pub fn toggle_command(state: &[u8]) -> (command: MediaCommand)
    ensures
        command == toggle_of(says_playing(state@)),
        state@.len() > 0 && state@[0] == 0x01 ==> command == MediaCommand::Pause,
        !(state@.len() > 0 && state@[0] == 0x01) ==> command == MediaCommand::Play,
{
    if is_playing(state) {
        MediaCommand::Pause
    } else {
        MediaCommand::Play
    }
}

/// The length of the track, in hundredths of a second, from the bytes that were
/// read of it.
pub fn track_duration(data: &[u8]) -> (duration: i32)
    requires
        data@.len() >= 4,
    ensures
        duration == le_i32(data@),
        data@[3] < 0x80 ==> duration == data@[0] + 0x100 * data@[1] + 0x1_0000 * data@[2]
            + 0x100_0000 * data@[3],
        data@[3] >= 0x80 ==> duration == data@[0] + 0x100 * data@[1] + 0x1_0000 * data@[2]
            + 0x100_0000 * data@[3] - 0x1_0000_0000,
{
    i32_from_le(data)
}

/// The progress of the track, in hundredths of a second, from the bytes that
/// were read of the media state.
pub fn track_position(state: &[u8]) -> (position: i32)
    requires
        state@.len() >= 4,
    ensures
        position == le_i32(state@),
        state@[3] < 0x80 ==> position == state@[0] + 0x100 * state@[1] + 0x1_0000 * state@[2]
            + 0x100_0000 * state@[3],
        state@[3] >= 0x80 ==> position == state@[0] + 0x100 * state@[1] + 0x1_0000 * state@[2]
            + 0x100_0000 * state@[3] - 0x1_0000_0000,
{
    i32_from_le(state)
}

/// The phone can tell the commands apart by their bytes.
pub proof fn commands_are_distinct(one: MediaCommand, other: MediaCommand)
    requires
        one.spec_opcode() == other.spec_opcode(),
    ensures
        one == other,
{
}

/// A duration that the phone sent as its four little-endian bytes, in two's
/// complement, is the one that is read, whatever follows.
pub proof fn duration_read_as_sent(sent: i32, data: &[u8], duration: i32)
    requires
        data@.len() >= 4,
        forall|i: int|
            0 <= i < 4 ==> data@[i] == ((sent as int % 0x1_0000_0000) / pow(256, i as nat)) % 256,
        call_ensures(track_duration, (data,), duration),
    ensures
        duration == sent,
{
    four_digits(sent as int % 0x1_0000_0000, data@);
}

/// A position that the phone sent as its four little-endian bytes, in two's
/// complement, is the one that is read, whatever follows.
pub proof fn position_read_as_sent(sent: i32, state: &[u8], position: i32)
    requires
        state@.len() >= 4,
        forall|i: int|
            0 <= i < 4 ==> state@[i] == ((sent as int % 0x1_0000_0000) / pow(256, i as nat)) % 256,
        call_ensures(track_position, (state,), position),
    ensures
        position == sent,
{
    four_digits(sent as int % 0x1_0000_0000, state@);
}

/// The command that the middle button sends goes by the first byte of the media
/// state alone: what is playing is told to pause, with the byte 2, and anything
/// else to play, with the byte 1.
pub proof fn toggle_by_first_byte(state: &[u8], playing: bool, command: MediaCommand, code: u8)
    requires
        state@.len() > 0,
        call_ensures(is_playing, (state,), playing),
        call_ensures(toggle_command, (state,), command),
        call_ensures(MediaCommand::opcode, (&command,), code),
    ensures
        playing <==> state@[0] == 1,
        code == if state@[0] == 1 {
            2u8
        } else {
            1u8
        },
{
}

/// A phone that has said nothing is taken not to play, and is told to play.
pub proof fn no_state_means_not_playing(state: &[u8], playing: bool, command: MediaCommand, code: u8)
    requires
        state@.len() == 0,
        call_ensures(is_playing, (state,), playing),
        call_ensures(toggle_command, (state,), command),
        call_ensures(MediaCommand::opcode, (&command,), code),
    ensures
        !playing,
        code == 1,
{
}

} // verus!
