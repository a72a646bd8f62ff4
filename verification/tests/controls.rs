use flac_music::controls::{press, Button, Effect};
use flac_music::song::{Modes, Song, Status};
use im::Vector;

fn song(title: &str, playing: bool) -> Song {
    Song {
        title: title.to_string(),
        artist: String::new(),
        album: String::new(),
        duration: 0,
        playing,
        date: String::new(),
        file: format!("/music/{}.flac", title),
    }
}

fn list(marks: &[bool]) -> Vector<Song> {
    let mut v = Vector::new();
    for (k, m) in marks.iter().enumerate() {
        v.push_back(song(&format!("s{}", k), *m));
    }
    v
}

fn marks(v: &Vector<Song>) -> Vec<bool> {
    v.iter().map(|s| s.playing).collect()
}

#[test]
fn play_sets_status_and_reads_the_sink() {
    let cases = [
        (true, true, Effect::Resume),
        (true, false, Effect::Resume),
        (false, true, Effect::Start),
        (false, false, Effect::Nothing),
    ];
    for (paused, empty, want) in cases {
        for before in [Status::Play, Status::Suspend, Status::Stop, Status::Next, Status::Prev] {
            let mut v = list(&[false, true]);
            let mut current = song("s1", true);
            let mut status = before;
            let got = press(Button::Play, Modes::Order, &mut v, &mut current, &mut status, paused, empty);
            assert_eq!(got, want);
            assert_eq!(status, Status::Play);
            assert_eq!(current.title, "s1");
            assert_eq!(marks(&v), vec![false, true]);
        }
    }
}

#[test]
fn play_on_empty_list() {
    let mut v: Vector<Song> = Vector::new();
    let mut current = Song::default();
    let mut status = Status::Stop;
    let got = press(Button::Play, Modes::Order, &mut v, &mut current, &mut status, false, true);
    assert_eq!(got, Effect::Start);
    assert_eq!(status, Status::Play);
    assert!(v.is_empty());
}

#[test]
fn pause_suspends() {
    let mut v = list(&[true, false]);
    let mut current = song("s0", true);
    let mut status = Status::Play;
    let got = press(Button::Pause, Modes::Order, &mut v, &mut current, &mut status, false, false);
    assert_eq!(got, Effect::Pause);
    assert_eq!(status, Status::Suspend);
    assert_eq!(current.title, "s0");
    assert_eq!(marks(&v), vec![true, false]);
}

#[test]
fn stop_halts() {
    let mut v = list(&[true, false]);
    let mut current = song("s0", true);
    let mut status = Status::Play;
    let got = press(Button::Stop, Modes::Order, &mut v, &mut current, &mut status, true, true);
    assert_eq!(got, Effect::Halt);
    assert_eq!(status, Status::Stop);
    assert_eq!(current.title, "s0");
    assert_eq!(marks(&v), vec![true, false]);
}

#[test]
fn next_button_skips_on() {
    let mut v = list(&[true, false, false]);
    let mut current = song("s0", true);
    let mut status = Status::Play;
    let got = press(Button::Next, Modes::Order, &mut v, &mut current, &mut status, false, false);
    assert_eq!(got, Effect::Volume);
    assert_eq!(status, Status::Next);
    assert_eq!(current.title, "s1");
    assert_eq!(current.file, "/music/s1.flac");
    assert!(current.playing);
    assert_eq!(marks(&v), vec![false, true, false]);
}

#[test]
fn next_button_at_the_end() {
    let mut v = list(&[false, false, true]);
    let mut current = song("s2", true);
    let mut status = Status::Suspend;
    let got = press(Button::Next, Modes::Order, &mut v, &mut current, &mut status, true, true);
    assert_eq!(got, Effect::Nothing);
    assert_eq!(status, Status::Suspend);
    assert_eq!(current.title, "s2");
    assert_eq!(marks(&v), vec![false, false, false]);
}

#[test]
fn prev_button_skips_back() {
    let mut v = list(&[false, false, true]);
    let mut current = song("s2", true);
    let mut status = Status::Play;
    let got = press(Button::Prev, Modes::Random, &mut v, &mut current, &mut status, false, false);
    assert_eq!(got, Effect::Volume);
    assert_eq!(status, Status::Prev);
    assert_eq!(current.title, "s1");
    assert!(current.playing);
    assert_eq!(marks(&v), vec![false, true, false]);
}

#[test]
fn prev_button_at_the_start() {
    let mut v = list(&[true, false]);
    let mut current = song("s0", true);
    let mut status = Status::Play;
    let got = press(Button::Prev, Modes::Order, &mut v, &mut current, &mut status, false, false);
    assert_eq!(got, Effect::Nothing);
    assert_eq!(status, Status::Play);
    assert_eq!(current.title, "s0");
    assert_eq!(marks(&v), vec![false, false]);
}

#[test]
fn skips_on_empty_list_do_nothing() {
    for key in [Button::Prev, Button::Next] {
        let mut v: Vector<Song> = Vector::new();
        let mut current = song("kept", true);
        let mut status = Status::Suspend;
        let got = press(key, Modes::Order, &mut v, &mut current, &mut status, false, false);
        assert_eq!(got, Effect::Nothing);
        assert_eq!(status, Status::Suspend);
        assert_eq!(current.title, "kept");
        assert!(current.playing);
        assert!(v.is_empty());
    }
}
