use crate::queue::{
    lemma_marked_index, lemma_marks_only, lemma_moved_to, marked_index, moved_to, next_song,
    prev_song, unmarked,
};
use crate::song::{Modes, Song, SongView, Status};
use crate::tracks::{len, slot, songs};
use im::Vector;
use vstd::prelude::*;

verus! {

/// What the playback loop keeps between its rounds.
pub struct Player {
    /// The loop's own copy of the playlist.
    pub play_list: Vector<Song>,
    /// How many songs further the loop has gone than where it began.
    pub count: usize,
}

/// What a round of the loop does once the sink has run empty.
pub enum Step {
    /// Hand this file to the sink and begin the next round at once.
    Begin(String),
    /// Hand this file to the sink.
    Enqueue(String),
    /// Hand nothing over.
    Idle,
    /// Leave the loop.
    Quit,
}

/// What a round of the loop does while the sink holds one song.
#[derive(Clone, Copy, PartialEq, Eq, Structural, Debug)]
pub enum Switch {
    /// Let the song play on.
    Keep,
    /// Stop the sink and put a new one in its place, so that the next round
    /// finds it empty.
    Cut,
    /// Leave the loop.
    Quit,
}

/// What a round does with a sink that holds `queued` songs, by the status.
/// Only a sink that holds exactly one song is cut or ends the loop.
pub open spec fn switch_of(queued: nat, status: Status) -> Switch {
    if queued != 1 {
        Switch::Keep
    } else {
        match status {
            Status::Play | Status::Suspend => Switch::Keep,
            Status::Next | Status::Prev => Switch::Cut,
            Status::Stop => Switch::Quit,
        }
    }
}

/// The first part of a round: what becomes of the playlist, the count, the
/// current song and the status, and what the round does. A sink that still
/// holds a song is left to play it.
pub open spec fn fed(
    sink_empty: bool,
    before: (Seq<SongView>, int, SongView, Status),
    after: (Seq<SongView>, int, SongView, Status),
    step: Step,
) -> bool {
    let (list, count, current, status) = before;
    let index = marked_index(list);
    if !sink_empty {
        after == before && step is Idle
    } else if current.title.len() == 0 {
        &&& after == (list.update(0, list[0].marked(true)), count, list[0].marked(true), status)
        &&& step matches Step::Begin(file) && file@ == list[0].file
    } else {
        match status {
            Status::Stop => after == before && step is Quit,
            Status::Suspend => after == before && step is Idle,
            Status::Play | Status::Next => if index + 1 < list.len() {
                &&& after == (
                    moved_to(list, index + 1),
                    count + 1,
                    list[index + 1].marked(true),
                    Status::Play,
                )
                &&& step matches Step::Enqueue(file) && file@ == list[index + 1].file
            } else {
                &&& after == (unmarked(list), count + 1, current, Status::Play)
                &&& step is Idle
            },
            Status::Prev => if index > 0 {
                &&& after == (
                    moved_to(list, index - 1),
                    count - 1,
                    list[index - 1].marked(true),
                    Status::Play,
                )
                &&& step matches Step::Enqueue(file) && file@ == list[index - 1].file
            } else {
                &&& after == (unmarked(list), count - 1, current, Status::Play)
                &&& step is Idle
            },
        }
    }
}

/// Whatever a round's first part does, the playlist changes in its marks
/// only, the count by one at most, and the status stays or becomes `Play`.
/// A file that is handed to the sink is that of the current song, which then
/// carries the mark: it is the first song of the list where the loop
/// begins, and the marked one after a step through the list.
pub proof fn lemma_fed(
    sink_empty: bool,
    before: (Seq<SongView>, int, SongView, Status),
    after: (Seq<SongView>, int, SongView, Status),
    step: Step,
)
    requires
        fed(sink_empty, before, after, step),
        before.0.len() > 0,
    ensures
        unmarked(after.0) == unmarked(before.0),
        before.1 - 1 <= after.1 <= before.1 + 1,
        after.3 == before.3 || after.3 == Status::Play,
        step is Idle || step is Quit ==> after.2 == before.2,
        match step {
            Step::Begin(file) => {
                &&& file@ == after.2.file
                &&& after.2.playing
                &&& after.0[0] == after.2
            },
            Step::Enqueue(file) => {
                &&& file@ == after.2.file
                &&& after.2.playing
                &&& after.0[marked_index(after.0)] == after.2
            },
            _ => true,
        },
{
    let (list, count, current, status) = before;
    let index = marked_index(list);
    lemma_marked_index(list);
    if sink_empty && current.title.len() == 0 {
        assert(unmarked(after.0) =~= unmarked(list));
    } else if sink_empty {
        if 0 <= index + 1 < list.len() {
            lemma_marks_only(list, index + 1, Seq::empty());
            lemma_moved_to(list, index + 1);
        }
        if 0 <= index - 1 < list.len() {
            lemma_marks_only(list, index - 1, Seq::empty());
            lemma_moved_to(list, index - 1);
        }
    }
}

/// The second part of a round, with the number of songs that the sink
/// holds by then: while it holds one, a skip cuts that song short and a
/// stop ends the loop; anything else lets the sink play.
pub fn switch(queued: usize, status: Status) -> (switch: Switch)
    ensures
        switch == switch_of(queued as nat, status),
{
    if queued != 1 {
        return Switch::Keep;
    }
    match status {
        Status::Play => Switch::Keep,
        Status::Stop => Switch::Quit,
        Status::Suspend => Switch::Keep,
        Status::Next => Switch::Cut,
        Status::Prev => Switch::Cut,
    }
}

impl Player {
    /// The state in which the loop begins: it has gone no song further.
    pub fn new(play_list: Vector<Song>) -> (player: Player)
        ensures
            player.play_list == play_list,
            player.count == 0,
    {
        Player { play_list, count: 0 }
    }

    /// Whether the loop goes into another round: it has not gone as many
    /// songs further as the list holds, and it is not asked to stop.
    pub fn running(&self, status: Status) -> (go: bool)
        ensures
            go == (self.count < songs(self.play_list).len() && status != Status::Stop),
    {
        self.count < len(&self.play_list) && status != Status::Stop
    }

    /// The first part of a round, which hands the sink a song once it has
    /// run empty. While no song is current, the first of the list becomes
    /// it. After that a `Play` or a `Next` goes one song on and a `Prev` one
    /// song back, both leave the status at `Play`, and the song they reach
    /// becomes the current one; at either end of the list there is none to
    /// reach. `Suspend` changes nothing and `Stop` ends the loop.
    ///
    /// The loop is in a round only while [`Player::running`] holds, and a
    /// `Prev` cannot take the count below zero.
    pub fn feed(
        &mut self,
        sink_empty: bool,
        current: &mut Song,
        status: &mut Status,
    ) -> (step: Step)
        requires
            sink_empty ==> old(self).count < songs(old(self).play_list).len(),
            sink_empty && old(current)@.title.len() > 0 && *old(status) == Status::Prev ==> old(
                self,
            ).count > 0,
        ensures
            songs(final(self).play_list).len() == songs(old(self).play_list).len(),
            fed(
                sink_empty,
                (songs(old(self).play_list), old(self).count as int, old(current)@, *old(status)),
                (
                    songs(final(self).play_list),
                    final(self).count as int,
                    final(current)@,
                    *final(status),
                ),
                step,
            ),
    {
        if !sink_empty {
            return Step::Idle;
        }
        let songs_held: usize = len(&self.play_list);
        if current.title.as_str().is_empty() {
            let first = slot(&mut self.play_list, 0);
            first.playing = true;
            *current = first.clone();
            return Step::Begin(current.file.clone());
        }
        match *status {
            Status::Stop => Step::Quit,
            Status::Suspend => Step::Idle,
            Status::Play | Status::Next => {
                assert(self.count < songs_held);
                self.count += 1;
                *status = Status::Play;
                turn(next_song(Modes::Order, &mut self.play_list), current)
            },
            Status::Prev => {
                self.count -= 1;
                *status = Status::Play;
                turn(prev_song(Modes::Order, &mut self.play_list), current)
            },
        }
    }
}

/// Makes the song that a move through the list reached the current one.
fn turn(reached: Option<Song>, current: &mut Song) -> (step: Step)
    ensures
        match reached {
            Some(song) => {
                &&& final(current)@ == song@
                &&& step matches Step::Enqueue(file) && file@ == song@.file
            },
            None => *final(current) == *old(current) && step is Idle,
        },
{
    match reached {
        Some(song) => {
            *current = song;
            Step::Enqueue(current.file.clone())
        },
        None => Step::Idle,
    }
}

} // verus!
