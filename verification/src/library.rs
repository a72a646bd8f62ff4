use crate::names::{is_music_file, is_music_name};
use crate::order::{compare_text, lemma_text_le_total, text_le, text_lt};
use crate::song::{Song, SongView};
use crate::tags::{get_song_meta, song_of, Media};
use crate::tracks::{empty, extend, push_back, songs, sort_by_album};
use core::cmp::Ordering;
use im::Vector;
use vstd::prelude::*;
use vstd::relations::sorted_by;
use vstd::seq_lib::lemma_sorted_unique;

verus! {

/// The names of music files among `names`, in their order.
pub open spec fn music_names(names: Seq<Seq<char>>) -> Seq<Seq<char>> {
    names.filter(|name: Seq<char>| is_music_name(name))
}

/// The music files of all folders, folder after folder.
pub open spec fn nested_music(folders: Seq<Seq<Seq<char>>>) -> Seq<Seq<char>>
    decreases folders.len(),
{
    if folders.len() == 0 {
        Seq::empty()
    } else {
        nested_music(folders.drop_last()) + music_names(folders.last())
    }
}

/// Whether no text stands before one that comes earlier in the order of
/// texts.
pub open spec fn sorted_texts(texts: Seq<Seq<char>>) -> bool {
    forall|i: int, j: int| 0 <= i < j < texts.len() ==> text_le(texts[i], texts[j])
}

/// Whether no song stands before one of an album that comes earlier in the
/// order of texts.
pub open spec fn sorted_by_album(list: Seq<SongView>) -> bool {
    forall|i: int, j: int| 0 <= i < j < list.len() ==> text_le(list[i].album, list[j].album)
}

/// The order in which the files of a directory are loaded: first the music
/// files of its folders, folder after folder as they were listed, then its
/// own music files in the order of texts.
pub open spec fn is_load_order(
    order: Seq<Seq<char>>,
    files: Seq<Seq<char>>,
    folders: Seq<Seq<Seq<char>>>,
) -> bool {
    let nested = nested_music(folders);
    let own = order.skip(nested.len() as int);
    &&& nested.len() <= order.len()
    &&& order.take(nested.len() as int) == nested
    &&& own.to_multiset() == music_names(files).to_multiset()
    &&& sorted_texts(own)
}

/// A directory has one load order and no other.
pub proof fn lemma_load_order_unique(
    a: Seq<Seq<char>>,
    b: Seq<Seq<char>>,
    files: Seq<Seq<char>>,
    folders: Seq<Seq<Seq<char>>>,
)
    requires
        is_load_order(a, files, folders),
        is_load_order(b, files, folders),
    ensures
        a == b,
{
    let n = nested_music(folders).len() as int;
    let leq = |x: Seq<char>, y: Seq<char>| text_le(x, y);
    lemma_text_le_total();
    assert(sorted_by(a.skip(n), leq));
    assert(sorted_by(b.skip(n), leq));
    lemma_sorted_unique(a.skip(n), b.skip(n), leq);
    assert(a =~= a.take(n) + a.skip(n));
    assert(b =~= b.take(n) + b.skip(n));
}

/// `slice::sort_by` with [`compare_text`] as the comparison: the texts are
/// those that were there, each as often as before, in the order of texts.
#[verifier::external_body]
fn sort_texts(texts: &mut Vec<String>)
    ensures
        final(texts).deep_view().to_multiset() == old(texts).deep_view().to_multiset(),
        sorted_texts(final(texts).deep_view()),
{
    texts.sort_by(|a, b| compare_text(a, b));
}

/// Compares two songs by the names of their albums.
pub fn album_order(left: &Song, right: &Song) -> (order: Ordering)
    ensures
        order == Ordering::Less <==> text_lt(left@.album, right@.album),
        order == Ordering::Equal <==> left@.album == right@.album,
        order == Ordering::Greater <==> text_lt(right@.album, left@.album),
{
    compare_text(left.album.as_str(), right.album.as_str())
}

/// Adds the music files among `names` to `files`, in their order.
fn add_music_files(files: &mut Vec<String>, names: &Vec<String>)
    ensures
        final(files).deep_view() == old(files).deep_view() + music_names(names.deep_view()),
{
    let ghost before = files.deep_view();
    let ghost all = names.deep_view();
    let n: usize = names.len();
    let mut i: usize = 0;
    proof {
        reveal(Seq::filter);
        assert(all.take(0) =~= Seq::<Seq<char>>::empty());
        assert(files.deep_view() =~= before + music_names(all.take(0)));
    }
    while i < n
        invariant
            n == names.len(),
            all == names.deep_view(),
            i <= n,
            files.deep_view() == before + music_names(all.take(i as int)),
        decreases n - i,
    {
        let ghost held = files.deep_view();
        proof {
            reveal(Seq::filter);
            let head = all.take(i + 1);
            assert(head.drop_last() =~= all.take(i as int));
            assert(head.last() == names[i as int]@);
        }
        if is_music_file(names[i].as_str()) {
            files.push(names[i].clone());
            assert(files.deep_view() =~= held.push(names[i as int]@));
            assert(files.deep_view() =~= before + music_names(all.take(i + 1)));
        }
        i += 1;
    }
    assert(all.take(n as int) =~= all);
}

/// The music files among `names`, in their order.
pub fn music_files(names: &Vec<String>) -> (files: Vec<String>)
    ensures
        files.deep_view() == music_names(names.deep_view()),
{
    let mut files: Vec<String> = Vec::new();
    assert(files.deep_view() =~= Seq::<Seq<char>>::empty());
    add_music_files(&mut files, names);
    assert(files.deep_view() =~= music_names(names.deep_view()));
    files
}

/// Puts the files of a directory in the order in which they are loaded.
/// `files` lists the directory itself, `folders` each of its folders, one
/// level deep; what is no music file is left out.
pub fn load_order(files: &Vec<String>, folders: &Vec<Vec<String>>) -> (order: Vec<String>)
    ensures
        is_load_order(order.deep_view(), files.deep_view(), folders.deep_view()),
{
    let mut order: Vec<String> = Vec::new();
    let ghost all = folders.deep_view();
    let n: usize = folders.len();
    let mut k: usize = 0;
    proof {
        assert(all.take(0) =~= Seq::<Seq<Seq<char>>>::empty());
        assert(order.deep_view() =~= nested_music(all.take(0)));
    }
    while k < n
        invariant
            n == folders.len(),
            all == folders.deep_view(),
            k <= n,
            order.deep_view() == nested_music(all.take(k as int)),
        decreases n - k,
    {
        proof {
            let head = all.take(k + 1);
            assert(head.drop_last() =~= all.take(k as int));
            assert(head.last() == folders[k as int].deep_view());
        }
        add_music_files(&mut order, &folders[k]);
        k += 1;
    }
    assert(all.take(n as int) =~= all);
    let ghost nested = order.deep_view();
    let mut own: Vec<String> = music_files(files);
    sort_texts(&mut own);
    let ghost sorted = own.deep_view();
    order.append(&mut own);
    proof {
        assert(order.deep_view() =~= nested + sorted);
        assert(order.deep_view().take(nested.len() as int) =~= nested);
        assert(order.deep_view().skip(nested.len() as int) =~= sorted);
    }
    order
}

/// Makes the playlist of the files that were loaded: for each of `loaded`,
/// in their order, the song that stands for the file with what opening it
/// gave.
pub fn load_songs(loaded: &Vec<(String, Option<Media>)>) -> (list: Vector<Song>)
    ensures
        songs(list) == Seq::new(loaded.len() as nat, |i: int| song_of(loaded[i].0@, loaded[i].1)),
{
    let mut list = empty();
    let n: usize = loaded.len();
    let mut i: usize = 0;
    while i < n
        invariant
            n == loaded.len(),
            i <= n,
            songs(list) == Seq::new(i as nat, |j: int| song_of(loaded[j].0@, loaded[j].1)),
        decreases n - i,
    {
        let ghost held = songs(list);
        let media: Option<&Media> = match &loaded[i].1 {
            Some(m) => Some(m),
            None => None,
        };
        push_back(&mut list, get_song_meta(loaded[i].0.as_str(), media));
        assert(songs(list) =~= Seq::new(
            (i + 1) as nat,
            |j: int| song_of(loaded[j].0@, loaded[j].1),
        ));
        i += 1;
    }
    list
}

/// Takes the songs of `loaded` into the playlist and puts the whole in the
/// order of the albums. Where songs of one album end up among each other is
/// not said.
pub fn import(play_list: &mut Vector<Song>, loaded: Vector<Song>)
    ensures
        songs(*final(play_list)).to_multiset() == (songs(*old(play_list)) + songs(
            loaded,
        )).to_multiset(),
        sorted_by_album(songs(*final(play_list))),
{
    extend(play_list, loaded);
    sort_by_album(play_list);
}

} // verus!
