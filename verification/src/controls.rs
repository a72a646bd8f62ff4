use crate::queue::{marked_index, moved_to, next_song, prev_song, unmarked};
use crate::song::{Modes, Song, SongView, Status};
use crate::tracks::{len, songs};
use im::Vector;
use vstd::prelude::*;

verus! {

/// The buttons of the player.
#[derive(Clone, Copy, PartialEq, Eq, Structural, Debug)]
pub enum Button {
    Prev,
    Play,
    Pause,
    Stop,
    Next,
}

/// What is to be done to the audio sink after a button was pressed.
#[derive(Clone, Copy, PartialEq, Eq, Structural, Debug)]
pub enum Effect {
    /// Leave the sink alone.
    Nothing,
    /// Set the sink's volume anew.
    Volume,
    /// Let the paused sink play on.
    Resume,
    /// Open a new sink, set its volume and start a playback loop on the
    /// playlist.
    Start,
    /// Pause the sink.
    Pause,
    /// Stop the sink.
    Halt,
}

/// What a sink that is paused, or empty, is asked to do when `Play` is
/// pressed. A paused sink plays on whether or not it is empty.
pub open spec fn play_effect(sink_paused: bool, sink_empty: bool) -> Effect {
    if sink_paused {
        Effect::Resume
    } else if sink_empty {
        Effect::Start
    } else {
        Effect::Nothing
    }
}

/// What pressing a button makes of the playlist, the current song and the
/// status, and what it asks of the sink.
pub open spec fn pressed(
    button: Button,
    sink_paused: bool,
    sink_empty: bool,
    before: (Seq<SongView>, SongView, Status),
    after: (Seq<SongView>, SongView, Status),
    effect: Effect,
) -> bool {
    let (list, current, status) = before;
    let index = marked_index(list);
    match button {
        Button::Play => {
            &&& after == (list, current, Status::Play)
            &&& effect == play_effect(sink_paused, sink_empty)
        },
        Button::Pause => after == (list, current, Status::Suspend) && effect == Effect::Pause,
        Button::Stop => after == (list, current, Status::Stop) && effect == Effect::Halt,
        Button::Prev => if list.len() == 0 {
            after == before && effect == Effect::Nothing
        } else if index > 0 {
            &&& after == (moved_to(list, index - 1), list[index - 1].marked(true), Status::Prev)
            &&& effect == Effect::Volume
        } else {
            after == (unmarked(list), current, status) && effect == Effect::Nothing
        },
        Button::Next => if list.len() == 0 {
            after == before && effect == Effect::Nothing
        } else if index + 1 < list.len() {
            &&& after == (moved_to(list, index + 1), list[index + 1].marked(true), Status::Next)
            &&& effect == Effect::Volume
        } else {
            after == (unmarked(list), current, status) && effect == Effect::Nothing
        },
    }
}

/// Carries out the press of a button. `Prev` and `Next` move the playing
/// mark in the playlist; where there is a song to move to, it becomes the
/// current one and the status tells the playback loop of the skip. On a
/// playlist without songs they do nothing. `Play`, `Pause` and `Stop` set
/// the status and leave playlist and current song as they are. The two flags
/// say what the sink reported; only `Play` reads them.
pub fn press(
    button: Button,
    play_mode: Modes,
    play_list: &mut Vector<Song>,
    current: &mut Song,
    status: &mut Status,
    sink_paused: bool,
    sink_empty: bool,
) -> (effect: Effect)
    ensures
        songs(*final(play_list)).len() == songs(*old(play_list)).len(),
        pressed(
            button,
            sink_paused,
            sink_empty,
            (songs(*old(play_list)), old(current)@, *old(status)),
            (songs(*final(play_list)), final(current)@, *final(status)),
            effect,
        ),
{
    match button {
        Button::Play => {
            *status = Status::Play;
            if sink_paused {
                Effect::Resume
            } else if sink_empty {
                Effect::Start
            } else {
                Effect::Nothing
            }
        },
        Button::Pause => {
            *status = Status::Suspend;
            Effect::Pause
        },
        Button::Stop => {
            *status = Status::Stop;
            Effect::Halt
        },
        Button::Prev => {
            if len(play_list) == 0 {
                return Effect::Nothing;
            }
            match prev_song(play_mode, play_list) {
                Some(song) => {
                    *current = song;
                    *status = Status::Prev;
                    Effect::Volume
                },
                None => Effect::Nothing,
            }
        },
        Button::Next => {
            if len(play_list) == 0 {
                return Effect::Nothing;
            }
            match next_song(play_mode, play_list) {
                Some(song) => {
                    *current = song;
                    *status = Status::Next;
                    Effect::Volume
                },
                None => Effect::Nothing,
            }
        },
    }
}

} // verus!
