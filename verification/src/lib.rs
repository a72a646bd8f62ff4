//! The logic of a small music player: a playlist with a mark on the song
//! that plays, the steps back and forth through it, the buttons that steer
//! playback, the rounds of the loop that feeds an audio sink, and the making
//! of songs from the files of a directory and their tags.
//!
//! Playlists are kept in `im::Vector`. What such a list holds is spoken of
//! through [`tracks::songs`], and every function here says what it makes of
//! that. Sound, windows and files are not touched: whoever drives the player
//! reads the directory and the tags, tells what the sink reports, and does
//! to the sink what the results ask for.

pub mod controls;
pub mod library;
pub mod names;
pub mod order;
pub mod player;
pub mod queue;
pub mod song;
pub mod tags;
pub mod tracks;
