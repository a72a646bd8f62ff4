use flac_music::order::{compare_text, rank_bytes, same_text, Rank};
use std::cmp::Ordering;

#[test]
fn rank_of_bytes() {
    assert_eq!(rank_bytes(b"", b""), Rank::Same);
    assert_eq!(rank_bytes(b"", b"a"), Rank::Before);
    assert_eq!(rank_bytes(b"a", b""), Rank::After);
    assert_eq!(rank_bytes(b"abc", b"abd"), Rank::Before);
    assert_eq!(rank_bytes(b"abd", b"abc"), Rank::After);
    assert_eq!(rank_bytes(b"abc", b"abc"), Rank::Same);
    assert_eq!(rank_bytes(b"ab", b"abc"), Rank::Before);
    assert_eq!(rank_bytes(b"abc", b"ab"), Rank::After);
    assert_eq!(rank_bytes(&[0xff], &[0x00, 0x01]), Rank::After);
    assert_eq!(rank_bytes(&[0x7f], &[0x80]), Rank::Before);
}

#[test]
fn compare_texts() {
    assert_eq!(compare_text("Abbey Road", "Revolver"), Ordering::Less);
    assert_eq!(compare_text("Revolver", "Abbey Road"), Ordering::Greater);
    assert_eq!(compare_text("Help!", "Help!"), Ordering::Equal);
    assert_eq!(compare_text("", ""), Ordering::Equal);
    assert_eq!(compare_text("", "a"), Ordering::Less);
    assert_eq!(compare_text("Z", "a"), Ordering::Less);
    assert_eq!(compare_text("a", "Z"), Ordering::Greater);
    assert_eq!(compare_text("10", "9"), Ordering::Less);
}

#[test]
fn compare_agrees_with_str_order() {
    let texts = [
        "", "a", "A", "ab", "b", "B", "é", "e", "z", "歌", "曲", "歌曲", "~", " ", "10", "2", "\u{10ffff}",
        "\u{e000}", "\u{d7ff}", "a\u{0}", "a\u{0}b",
    ];
    for a in texts {
        for b in texts {
            assert_eq!(compare_text(a, b), a.cmp(b), "{:?} {:?}", a, b);
            assert_eq!(same_text(a, b), a == b, "{:?} {:?}", a, b);
        }
    }
}

#[test]
fn order_is_transitive_on_samples() {
    let texts = ["", "a", "ab", "abc", "b", "ba", "é", "歌"];
    for a in texts {
        for b in texts {
            for c in texts {
                if compare_text(a, b) != Ordering::Greater && compare_text(b, c) != Ordering::Greater {
                    assert!(compare_text(a, c) != Ordering::Greater);
                }
            }
        }
    }
}

#[test]
fn same_texts() {
    assert!(same_text("title", "title"));
    assert!(!same_text("title", "Title"));
    assert!(!same_text("title", "titles"));
    assert!(!same_text("", "a"));
    assert!(same_text("", ""));
}
