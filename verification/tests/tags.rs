use flac_music::song::Song;
use flac_music::tags::{apply_tag, field, get_song_meta, seconds, Field, Media, TIME_BASE};

fn media(tags: &[(&str, &str)], duration: i64) -> Media {
    Media {
        tags: tags.iter().map(|(k, v)| (k.to_string(), v.to_string())).collect(),
        duration,
    }
}

#[test]
fn field_by_key() {
    assert_eq!(field("title"), Field::Title);
    assert_eq!(field("album"), Field::Album);
    assert_eq!(field("artist"), Field::Artist);
    assert_eq!(field("date"), Field::Date);
    assert_eq!(field("genre"), Field::Other);
    assert_eq!(field(""), Field::Other);
    assert_eq!(field("titles"), Field::Other);
    assert_eq!(field("titl"), Field::Other);
    // The key is expected in lower case.
    assert_eq!(field("Title"), Field::Other);
    assert_eq!(field("ALBUM"), Field::Other);
}

#[test]
fn time_base_is_a_million() {
    assert_eq!(TIME_BASE, 1_000_000);
}

#[test]
fn seconds_round_to_nearest() {
    assert_eq!(seconds(0), 0);
    assert_eq!(seconds(1), 0);
    assert_eq!(seconds(499_999), 0);
    assert_eq!(seconds(500_000), 1);
    assert_eq!(seconds(999_999), 1);
    assert_eq!(seconds(1_000_000), 1);
    assert_eq!(seconds(1_499_999), 1);
    assert_eq!(seconds(1_500_000), 2);
    assert_eq!(seconds(245_733_333), 246);
    assert_eq!(seconds(245_400_000), 245);
}

#[test]
fn seconds_round_halves_away_from_zero() {
    assert_eq!(seconds(-1), 0);
    assert_eq!(seconds(-499_999), 0);
    assert_eq!(seconds(-500_000), -1);
    assert_eq!(seconds(-1_499_999), -1);
    assert_eq!(seconds(-1_500_000), -2);
    assert_eq!(seconds(2_500_000), 3);
    assert_eq!(seconds(-2_500_000), -3);
}

#[test]
fn seconds_at_the_limits() {
    assert_eq!(seconds(i64::MAX), 9_223_372_036_855);
    assert_eq!(seconds(i64::MIN), -9_223_372_036_855);
    assert_eq!(seconds(i64::MIN + 1), -9_223_372_036_855);
}

#[test]
fn seconds_agree_with_float_rounding() {
    let samples: [i64; 12] = [
        0, 1, -1, 499_999, 500_000, 500_001, -499_999, -500_000, -500_001, 3_599_500_000, 86_400_000_001,
        -7_250_000,
    ];
    for m in samples {
        let want = (m as f64 / 1_000_000f64).round() as i64;
        assert_eq!(seconds(m), want, "{}", m);
    }
}

#[test]
fn apply_each_field() {
    let mut song = Song::default();
    let mut titled = false;
    apply_tag(&mut song, &mut titled, "album", "Kind of Blue", "/m/so what.flac");
    assert_eq!(song.album, "Kind of Blue");
    assert!(!titled);
    apply_tag(&mut song, &mut titled, "artist", "Miles Davis", "/m/so what.flac");
    assert_eq!(song.artist, "Miles Davis");
    apply_tag(&mut song, &mut titled, "date", "1959", "/m/so what.flac");
    assert_eq!(song.date, "1959");
    assert_eq!(song.title, "");
    assert!(!titled);
    apply_tag(&mut song, &mut titled, "title", "So What", "/m/so what.flac");
    assert_eq!(song.title, "So What");
    assert!(titled);
    assert_eq!(song.album, "Kind of Blue");
    assert_eq!(song.artist, "Miles Davis");
    assert_eq!(song.date, "1959");
    assert_eq!(song.file, "");
    assert_eq!(song.duration, 0);
    assert!(!song.playing);
}

#[test]
fn other_tag_gives_title_of_file_until_a_title_came() {
    let mut song = Song::default();
    let mut titled = false;
    apply_tag(&mut song, &mut titled, "genre", "Jazz", "/m/so what.flac");
    assert_eq!(song.title, "so what");
    assert!(!titled);
    apply_tag(&mut song, &mut titled, "title", "So What", "/m/so what.flac");
    assert_eq!(song.title, "So What");
    assert!(titled);
    apply_tag(&mut song, &mut titled, "comment", "x", "/m/so what.flac");
    assert_eq!(song.title, "So What");
    assert!(titled);
}

#[test]
fn meta_of_file_that_did_not_open() {
    let song = get_song_meta("/m/a.flac", None);
    assert_eq!(song.file, "/m/a.flac");
    assert_eq!(song.title, "");
    assert_eq!(song.artist, "");
    assert_eq!(song.album, "");
    assert_eq!(song.date, "");
    assert_eq!(song.duration, 0);
    assert!(!song.playing);
}

#[test]
fn meta_reads_tags_whatever_their_case() {
    let m = media(
        &[("TITLE", "So What"), ("Album", "Kind of Blue"), ("ARTIST", "Miles Davis"), ("DaTe", "1959")],
        562_400_000,
    );
    let song = get_song_meta("/m/01.flac", Some(&m));
    assert_eq!(song.title, "So What");
    assert_eq!(song.album, "Kind of Blue");
    assert_eq!(song.artist, "Miles Davis");
    assert_eq!(song.date, "1959");
    assert_eq!(song.duration, 562);
    assert_eq!(song.file, "/m/01.flac");
    assert!(!song.playing);
}

#[test]
fn meta_without_tags_has_no_title() {
    let m = media(&[], 1_600_000);
    let song = get_song_meta("/m/01.flac", Some(&m));
    assert_eq!(song.title, "");
    assert_eq!(song.duration, 2);
    assert_eq!(song.file, "/m/01.flac");
}

#[test]
fn meta_without_title_tag_takes_file_name() {
    let m = media(&[("album", "B"), ("encoder", "x")], 0);
    let song = get_song_meta("/m/My Song.mp3", Some(&m));
    assert_eq!(song.title, "My Song");
    assert_eq!(song.album, "B");
}

#[test]
fn meta_with_only_known_tags_but_no_title_stays_untitled() {
    let m = media(&[("album", "B"), ("artist", "C")], 0);
    let song = get_song_meta("/m/My Song.mp3", Some(&m));
    assert_eq!(song.title, "");
}

#[test]
fn meta_title_tag_wins_over_file_name() {
    let m = media(&[("encoder", "x"), ("title", "T"), ("comment", "y")], 0);
    let song = get_song_meta("/m/My Song.mp3", Some(&m));
    assert_eq!(song.title, "T");
    let m = media(&[("title", "T"), ("encoder", "x")], 0);
    let song = get_song_meta("/m/My Song.mp3", Some(&m));
    assert_eq!(song.title, "T");
}

#[test]
fn meta_later_tag_overwrites() {
    let m = media(&[("title", "A"), ("Title", "B"), ("album", "X"), ("ALBUM", "Y")], 0);
    let song = get_song_meta("f.wav", Some(&m));
    assert_eq!(song.title, "B");
    assert_eq!(song.album, "Y");
}

#[test]
fn meta_negative_duration() {
    let m = media(&[], i64::MIN);
    let song = get_song_meta("f.wav", Some(&m));
    assert_eq!(song.duration, -9_223_372_036_855);
}
