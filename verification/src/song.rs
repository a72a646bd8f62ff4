use vstd::prelude::*;
use vstd::string::StringExecFns;

verus! {

/// What the player is asked to do. The buttons write it, the playback loop
/// reads it and, once a skip has been carried out, sets it back to `Play`.
#[derive(Clone, Copy, PartialEq, Eq, Structural, Debug)]
pub enum Status {
    Play,
    Suspend,
    Stop,
    Next,
    Prev,
}

/// The order in which a playlist is walked.
#[derive(Clone, Copy, PartialEq, Eq, Structural, Debug)]
pub enum Modes {
    Order,
    Random,
    Repet,
}

/// One track of a playlist.
#[derive(Debug)]
pub struct Song {
    pub title: String,
    pub artist: String,
    pub album: String,
    /// Length of the track in whole seconds.
    pub duration: i64,
    /// Whether the playlist shows this track as the one being played.
    pub playing: bool,
    pub date: String,
    /// Path of the audio file.
    pub file: String,
}

/// The mathematical value of a [`Song`]: its texts as sequences of
/// characters, its length as an integer.
pub struct SongView {
    pub title: Seq<char>,
    pub artist: Seq<char>,
    pub album: Seq<char>,
    pub duration: int,
    pub playing: bool,
    pub date: Seq<char>,
    pub file: Seq<char>,
}

impl SongView {
    /// The song without any text, of length zero and not playing.
    pub open spec fn blank() -> SongView {
        SongView {
            title: Seq::empty(),
            artist: Seq::empty(),
            album: Seq::empty(),
            duration: 0,
            playing: false,
            date: Seq::empty(),
            file: Seq::empty(),
        }
    }

    /// The same song with its playing mark set to `on`.
    pub open spec fn marked(self, on: bool) -> SongView {
        SongView { playing: on, ..self }
    }

    /// The line that announces the song while it plays: title and artist
    /// with a dash between them. A song that does not play announces
    /// nothing.
    pub open spec fn heading(self) -> Seq<char> {
        if self.playing {
            self.title + "   -   "@ + self.artist
        } else {
            Seq::empty()
        }
    }

    /// The sign that a playlist shows beside the song: an arrow while it
    /// plays, nothing otherwise.
    pub open spec fn sign(self) -> Seq<char> {
        if self.playing {
            "|>"@
        } else {
            Seq::empty()
        }
    }
}

impl View for Song {
    type V = SongView;

    open spec fn view(&self) -> SongView {
        SongView {
            title: self.title@,
            artist: self.artist@,
            album: self.album@,
            duration: self.duration as int,
            playing: self.playing,
            date: self.date@,
            file: self.file@,
        }
    }
}

impl Song {
    /// The line that announces the song while it plays.
    pub fn heading(&self) -> (line: String)
        ensures
            line@ == self@.heading(),
    {
        let mut line = String::new();
        if self.playing {
            line.append(self.title.as_str());
            line.append("   -   ");
            line.append(self.artist.as_str());
        }
        line
    }

    /// The sign that a playlist shows beside the song.
    pub fn sign(&self) -> (sign: &'static str)
        ensures
            sign@ == self@.sign(),
    {
        if self.playing {
            "|>"
        } else {
            proof {
                reveal_strlit("");
            }
            ""
        }
    }
}

impl Clone for Song {
    fn clone(&self) -> (copy: Song)
        ensures
            copy@ == self@,
    {
        Song {
            title: self.title.clone(),
            artist: self.artist.clone(),
            album: self.album.clone(),
            duration: self.duration,
            playing: self.playing,
            date: self.date.clone(),
            file: self.file.clone(),
        }
    }
}

impl Default for Song {
    fn default() -> (song: Song)
        ensures
            song@ == SongView::blank(),
    {
        Song {
            title: String::new(),
            artist: String::new(),
            album: String::new(),
            duration: 0,
            playing: false,
            date: String::new(),
            file: String::new(),
        }
    }
}

} // verus!
