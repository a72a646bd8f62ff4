use crate::order::same_text;
use crate::song::{Modes, Song, SongView};
use crate::tracks::{at, len, slot, songs};
use im::Vector;
use vstd::prelude::*;

verus! {

/// The place of the song that counts as the one being played: the last one
/// that carries the mark, or the first place where none does.
pub open spec fn marked_index(list: Seq<SongView>) -> int
    decreases list.len(),
{
    if list.len() == 0 {
        0
    } else if list.last().playing {
        list.len() - 1
    } else {
        marked_index(list.drop_last())
    }
}

/// The list with the mark taken from every song.
pub open spec fn unmarked(list: Seq<SongView>) -> Seq<SongView> {
    Seq::new(list.len(), |i: int| list[i].marked(false))
}

/// The list with the mark on the song at `index` and on no other.
pub open spec fn moved_to(list: Seq<SongView>, index: int) -> Seq<SongView> {
    unmarked(list).update(index, list[index].marked(true))
}

/// The list with the mark on the songs of the given title and on no other.
pub open spec fn marked_by_title(list: Seq<SongView>, title: Seq<char>) -> Seq<SongView> {
    Seq::new(list.len(), |i: int| list[i].marked(list[i].title == title))
}

/// The marked place lies inside the list; it carries the mark where any song
/// does, and no song after it does.
pub proof fn lemma_marked_index(list: Seq<SongView>)
    ensures
        0 <= marked_index(list),
        list.len() > 0 ==> marked_index(list) < list.len(),
        forall|i: int| marked_index(list) < i < list.len() ==> !list[i].playing,
        (exists|i: int| 0 <= i < list.len() && list[i].playing) ==> list[marked_index(
            list,
        )].playing,
        (forall|i: int| 0 <= i < list.len() ==> !list[i].playing) ==> marked_index(list) == 0,
    decreases list.len(),
{
    if list.len() > 0 && !list.last().playing {
        let front = list.drop_last();
        lemma_marked_index(front);
        assert forall|i: int| marked_index(list) < i < list.len() implies !list[i].playing by {
            if i < front.len() {
                assert(front[i] == list[i]);
            }
        }
        if exists|i: int| 0 <= i < list.len() && list[i].playing {
            let i = choose|i: int| 0 <= i < list.len() && list[i].playing;
            assert(front[i].playing);
        }
        if forall|i: int| 0 <= i < list.len() ==> !list[i].playing {
            assert forall|i: int| 0 <= i < front.len() implies !front[i].playing by {
                assert(front[i] == list[i]);
            }
        }
    }
}

/// Once the mark was moved to a place inside the list, that place is the
/// marked one and the only one that carries the mark.
pub proof fn lemma_moved_to(list: Seq<SongView>, index: int)
    requires
        0 <= index < list.len(),
    ensures
        marked_index(moved_to(list, index)) == index,
        forall|i: int|
            0 <= i < list.len() ==> (#[trigger] moved_to(list, index)[i].playing <==> i == index),
        moved_to(moved_to(list, index), index) == moved_to(list, index),
{
    let moved = moved_to(list, index);
    lemma_marked_index(moved);
    assert(moved[index].playing);
    assert(moved_to(moved, index) =~= moved);
}

/// A step on and a step back from there lead to the song from which the
/// first step was taken, whatever marks the list carried before.
pub proof fn lemma_next_then_prev(list: Seq<SongView>)
    requires
        marked_index(list) + 1 < list.len(),
    ensures
        ({
            let index = marked_index(list);
            let after_next = moved_to(list, index + 1);
            &&& marked_index(after_next) - 1 == index
            &&& moved_to(after_next, index) == moved_to(list, index)
        }),
{
    let index = marked_index(list);
    lemma_marked_index(list);
    lemma_moved_to(list, index + 1);
    assert(moved_to(moved_to(list, index + 1), index) =~= moved_to(list, index));
}

/// A list without marks counts its first place as the marked one.
pub proof fn lemma_unmarked(list: Seq<SongView>)
    ensures
        marked_index(unmarked(list)) == 0,
        unmarked(unmarked(list)) == unmarked(list),
{
    lemma_marked_index(unmarked(list));
    assert(unmarked(unmarked(list)) =~= unmarked(list));
}

/// Moving the mark, taking it away and setting it by title change nothing
/// of a list but its marks.
pub proof fn lemma_marks_only(list: Seq<SongView>, index: int, title: Seq<char>)
    ensures
        0 <= index < list.len() ==> unmarked(moved_to(list, index)) == unmarked(list),
        unmarked(marked_by_title(list, title)) == unmarked(list),
{
    if 0 <= index < list.len() {
        assert(unmarked(moved_to(list, index)) =~= unmarked(list));
    }
    assert(unmarked(marked_by_title(list, title)) =~= unmarked(list));
}

/// Takes the mark from every song and tells which place it counted for.
fn clear_marks(list: &mut Vector<Song>) -> (index: usize)
    ensures
        index == marked_index(songs(*old(list))),
        songs(*final(list)) == unmarked(songs(*old(list))),
{
    let ghost before = songs(*list);
    let n: usize = len(list);
    let mut index: usize = 0;
    let mut k: usize = 0;
    assert(before.take(0) =~= Seq::<SongView>::empty());
    while k < n
        invariant
            n == before.len(),
            songs(*list).len() == n,
            k <= n,
            index == marked_index(before.take(k as int)),
            forall|i: int| 0 <= i < k ==> songs(*list)[i] == before[i].marked(false),
            forall|i: int| k <= i < n ==> songs(*list)[i] == before[i],
        decreases n - k,
    {
        proof {
            let head = before.take(k + 1);
            assert(head.last() == before[k as int]);
            assert(head.drop_last() =~= before.take(k as int));
        }
        if at(list, k).playing {
            index = k;
            let song = slot(list, k);
            song.playing = false;
        }
        k += 1;
    }
    assert(before.take(n as int) =~= before);
    assert(songs(*list) =~= unmarked(before));
    index
}

/// Moves the playing mark one song back and returns that song, marked.
/// At the first song there is none before it: every mark is taken away and
/// nothing is returned. The play mode has no part in it. The list holds one
/// song at least.
pub fn prev_song(play_mode: Modes, play_list: &mut Vector<Song>) -> (prev: Option<Song>)
    requires
        songs(*old(play_list)).len() > 0,
    ensures
        songs(*final(play_list)).len() == songs(*old(play_list)).len(),
        ({
            let before = songs(*old(play_list));
            let index = marked_index(before);
            match prev {
                Some(song) => {
                    &&& index > 0
                    &&& song@ == before[index - 1].marked(true)
                    &&& songs(*final(play_list)) == moved_to(before, index - 1)
                },
                None => {
                    &&& index == 0
                    &&& songs(*final(play_list)) == unmarked(before)
                },
            }
        }),
{
    proof {
        lemma_marked_index(songs(*play_list));
    }
    let this_index: usize = clear_marks(play_list);
    if this_index == 0 {
        None
    } else {
        let prev_index: usize = this_index - 1;
        let song = slot(play_list, prev_index);
        song.playing = true;
        Some(song.clone())
    }
}

/// Moves the playing mark one song on and returns that song, marked.
/// At the last song there is none after it: every mark is taken away and
/// nothing is returned. The play mode has no part in it. The list holds one
/// song at least.
pub fn next_song(play_mode: Modes, play_list: &mut Vector<Song>) -> (next: Option<Song>)
    requires
        songs(*old(play_list)).len() > 0,
    ensures
        songs(*final(play_list)).len() == songs(*old(play_list)).len(),
        ({
            let before = songs(*old(play_list));
            let index = marked_index(before);
            match next {
                Some(song) => {
                    &&& index + 1 < before.len()
                    &&& song@ == before[index + 1].marked(true)
                    &&& songs(*final(play_list)) == moved_to(before, index + 1)
                },
                None => {
                    &&& index + 1 == before.len()
                    &&& songs(*final(play_list)) == unmarked(before)
                },
            }
        }),
{
    proof {
        lemma_marked_index(songs(*play_list));
    }
    let max: usize = len(play_list) - 1;
    let this_index: usize = clear_marks(play_list);
    if this_index == max {
        None
    } else {
        let next_index: usize = this_index + 1;
        let song = slot(play_list, next_index);
        song.playing = true;
        Some(song.clone())
    }
}

/// Puts the playing mark on the songs whose title is `title`, and takes it
/// from all others.
pub fn mark_title(play_list: &mut Vector<Song>, title: &str)
    ensures
        songs(*final(play_list)).len() == songs(*old(play_list)).len(),
        songs(*final(play_list)) == marked_by_title(songs(*old(play_list)), title@),
{
    let ghost before = songs(*play_list);
    let n: usize = len(play_list);
    let mut k: usize = 0;
    while k < n
        invariant
            n == before.len(),
            songs(*play_list).len() == n,
            k <= n,
            forall|i: int|
                0 <= i < k ==> songs(*play_list)[i] == before[i].marked(before[i].title == title@),
            forall|i: int| k <= i < n ==> songs(*play_list)[i] == before[i],
        decreases n - k,
    {
        let song = slot(play_list, k);
        song.playing = same_text(song.title.as_str(), title);
        k += 1;
    }
    assert(songs(*play_list) =~= marked_by_title(before, title@));
}

} // verus!
