use crate::library::{album_order, sorted_by_album};
use crate::song::{Song, SongView};
use im::Vector;
use vstd::prelude::*;

verus! {

/// `im::Vector`, the persistent vector in which a playlist is kept. Nothing
/// is said of its inside: what a list holds is spoken of through [`songs`].
#[verifier::external_type_specification]
#[verifier::external_body]
#[verifier::reject_recursive_types(A)]
pub struct ExVector<A>(Vector<A>);

/// The songs that a playlist holds, first to last, each by its view. A
/// `Vector` may copy the songs it holds when it is written to; a copy of a
/// song has the view of the song.
pub uninterp spec fn songs(list: Vector<Song>) -> Seq<SongView>;

/// `Vector::new`: a list without songs.
#[verifier::external_body]
pub(crate) fn empty() -> (list: Vector<Song>)
    ensures
        songs(list) == Seq::<SongView>::empty(),
{
    Vector::new()
}

/// `Vector::len`: the number of songs in the list.
#[verifier::external_body]
pub(crate) fn len(list: &Vector<Song>) -> (n: usize)
    ensures
        n == songs(*list).len(),
{
    list.len()
}

/// `Index::index` of `Vector`, inside its length: the song at that place.
#[verifier::external_body]
pub(crate) fn at(list: &Vector<Song>, index: usize) -> (song: &Song)
    requires
        index < songs(*list).len(),
    ensures
        song@ == songs(*list)[index as int],
{
    &list[index]
}

/// `IndexMut::index_mut` of `Vector`, inside its length: the place of that
/// song. The list ends up as it was but for what the caller leaves in that
/// place.
#[verifier::external_body]
pub(crate) fn slot(list: &mut Vector<Song>, index: usize) -> (song: &mut Song)
    requires
        index < songs(*old(list)).len(),
    ensures
        song@ == songs(*old(list))[index as int],
        songs(*final(list)) == songs(*old(list)).update(index as int, final(song)@),
{
    &mut list[index]
}

/// `Vector::push_back`: the song becomes the last of the list.
#[verifier::external_body]
pub(crate) fn push_back(list: &mut Vector<Song>, song: Song)
    ensures
        songs(*final(list)) == songs(*old(list)).push(song@),
{
    list.push_back(song);
}

/// `Extend::extend` of a `Vector` with another: the songs of `more` follow
/// those of the list, in their order.
#[verifier::external_body]
pub(crate) fn extend(list: &mut Vector<Song>, more: Vector<Song>)
    ensures
        songs(*final(list)) == songs(*old(list)) + songs(more),
{
    list.extend(more);
}

/// `Vector::sort_by` with [`album_order`] as the comparison: the list holds
/// the songs it held, each as often as before, and is in the order of their
/// albums. Where songs of one album end up among each other is left open.
#[verifier::external_body]
pub(crate) fn sort_by_album(list: &mut Vector<Song>)
    ensures
        songs(*final(list)).to_multiset() == songs(*old(list)).to_multiset(),
        sorted_by_album(songs(*final(list))),
{
    list.sort_by(|left, right| album_order(left, right));
}

} // verus!
