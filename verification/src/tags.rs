use crate::names::{title_from_path, title_of_path};
use crate::order::same_text;
use crate::song::{Song, SongView};
use vstd::prelude::*;

verus! {

/// What a media file told of itself when it was opened.
pub struct Media {
    /// The tags of the file, each a key and its value, in the order in
    /// which the file gives them.
    pub tags: Vec<(String, String)>,
    /// The length of the file in microseconds.
    pub duration: i64,
}

/// The field of a song that a tag fills.
#[derive(Clone, Copy, PartialEq, Eq, Structural, Debug)]
pub enum Field {
    Title,
    Album,
    Artist,
    Date,
    /// The tag fills no field.
    Other,
}

/// Microseconds in a second.
pub const TIME_BASE: u64 = 1_000_000;

/// The text in lower case, as Unicode maps it.
pub uninterp spec fn lowercase(text: Seq<char>) -> Seq<char>;

/// `str::to_lowercase`: the text in lower case.
#[verifier::external_body]
fn to_lowercase(text: &str) -> (lower: String)
    ensures
        lower@ == lowercase(text@),
{
    text.to_lowercase()
}

/// The field that a tag fills, by its key in lower case.
pub open spec fn field_of(key: Seq<char>) -> Field {
    if key == "title"@ {
        Field::Title
    } else if key == "album"@ {
        Field::Album
    } else if key == "artist"@ {
        Field::Artist
    } else if key == "date"@ {
        Field::Date
    } else {
        Field::Other
    }
}

/// The song after one more tag was read, and whether a title tag has been
/// seen by then. `key` is the tag's key in lower case. A tag that fills no
/// field gives the song the title that the path of its file yields, as long
/// as no title tag was seen.
pub open spec fn tagged(
    song: SongView,
    titled: bool,
    key: Seq<char>,
    value: Seq<char>,
    file: Seq<char>,
) -> (SongView, bool) {
    match field_of(key) {
        Field::Title => (SongView { title: value, ..song }, true),
        Field::Album => (SongView { album: value, ..song }, titled),
        Field::Artist => (SongView { artist: value, ..song }, titled),
        Field::Date => (SongView { date: value, ..song }, titled),
        Field::Other => if titled {
            (song, titled)
        } else {
            (SongView { title: title_of_path(file), ..song }, titled)
        },
    }
}

/// The song after all of `tags` were read in their order, beginning with the
/// blank song, and whether a title tag was among them.
pub open spec fn read_tags(tags: Seq<(Seq<char>, Seq<char>)>, file: Seq<char>) -> (SongView, bool)
    decreases tags.len(),
{
    if tags.len() == 0 {
        (SongView::blank(), false)
    } else {
        let (song, titled) = read_tags(tags.drop_last(), file);
        tagged(song, titled, lowercase(tags.last().0), tags.last().1, file)
    }
}

/// A length in microseconds as whole seconds, to the nearest and from a
/// half on away from zero.
pub open spec fn rounded_seconds(micros: int) -> int {
    if micros >= 0 {
        (micros + 500_000) / 1_000_000
    } else {
        -((500_000 - micros) / 1_000_000)
    }
}

/// The song that stands for a file. One that could not be opened has its
/// path and nothing else. One that could has what its tags say, and its
/// length in whole seconds.
pub open spec fn song_of(file: Seq<char>, media: Option<Media>) -> SongView {
    match media {
        Some(m) => SongView {
            duration: rounded_seconds(m.duration as int),
            file: file,
            ..read_tags(m.tags.deep_view(), file).0
        },
        None => SongView { file: file, ..SongView::blank() },
    }
}

/// The field that a tag fills, by its key in lower case.
pub fn field(key: &str) -> (field: Field)
    ensures
        field == field_of(key@),
{
    if same_text(key, "title") {
        Field::Title
    } else if same_text(key, "album") {
        Field::Album
    } else if same_text(key, "artist") {
        Field::Artist
    } else if same_text(key, "date") {
        Field::Date
    } else {
        Field::Other
    }
}

/// Reads one tag into the song. `key` is the tag's key in lower case,
/// `titled` whether a title tag has been seen, `file` the path of the song's
/// file.
pub fn apply_tag(song: &mut Song, titled: &mut bool, key: &str, value: &str, file: &str)
    ensures
        (final(song)@, *final(titled)) == tagged(old(song)@, *old(titled), key@, value@, file@),
{
    match field(key) {
        Field::Title => {
            song.title = value.to_owned();
            *titled = true;
        },
        Field::Album => {
            song.album = value.to_owned();
        },
        Field::Artist => {
            song.artist = value.to_owned();
        },
        Field::Date => {
            song.date = value.to_owned();
        },
        Field::Other => {
            if !*titled {
                song.title = title_from_path(file);
            }
        },
    }
}

/// A length in microseconds as whole seconds, to the nearest and from a
/// half on away from zero.
pub fn seconds(micros: i64) -> (whole: i64)
    ensures
        whole == rounded_seconds(micros as int),
{
    if micros >= 0 {
        let length: u64 = micros as u64;
        let whole: u64 = length / TIME_BASE;
        if length % TIME_BASE >= TIME_BASE / 2 {
            (whole + 1) as i64
        } else {
            whole as i64
        }
    } else {
        let length: u64 = (-(micros + 1)) as u64 + 1;
        let whole: u64 = length / TIME_BASE;
        if length % TIME_BASE >= TIME_BASE / 2 {
            -((whole + 1) as i64)
        } else {
            -(whole as i64)
        }
    }
}

/// Makes the song that stands for the file `f` from what opening the file
/// gave, if it could be opened. Tags are told apart by their keys without
/// regard to case.
pub fn get_song_meta(f: &str, media: Option<&Media>) -> (song: Song)
    ensures
        song@ == song_of(
            f@,
            match media {
                Some(m) => Some(*m),
                None => None,
            },
        ),
{
    let mut song = Song::default();
    match media {
        Some(context) => {
            let mut is_has_title: bool = false;
            let n: usize = context.tags.len();
            let ghost tags = context.tags.deep_view();
            let mut i: usize = 0;
            assert(tags.take(0) =~= Seq::empty());
            while i < n
                invariant
                    n == context.tags.len(),
                    tags == context.tags.deep_view(),
                    i <= n,
                    (song@, is_has_title) == read_tags(tags.take(i as int), f@),
                decreases n - i,
            {
                let key = to_lowercase(context.tags[i].0.as_str());
                proof {
                    let head = tags.take(i + 1);
                    assert(head.drop_last() =~= tags.take(i as int));
                    assert(head.last() == (context.tags[i as int].0@, context.tags[i as int].1@));
                }
                apply_tag(
                    &mut song,
                    &mut is_has_title,
                    key.as_str(),
                    context.tags[i].1.as_str(),
                    f,
                );
                i += 1;
            }
            assert(tags.take(n as int) =~= tags);
            song.duration = seconds(context.duration);
        },
        None => {},
    }
    song.file = f.to_owned();
    song
}

} // verus!
