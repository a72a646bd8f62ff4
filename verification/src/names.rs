use vstd::prelude::*;
use vstd::string::StrSliceExecFns;

verus! {

/// Whether `pat` stands at the end of `s`.
pub open spec fn ends_with(s: Seq<char>, pat: Seq<char>) -> bool {
    pat.len() <= s.len() && s.skip(s.len() - pat.len()) == pat
}

/// Whether a file name carries one of the extensions of the audio formats
/// that the player takes: `.flac`, `.mp3`, `.wav`, `.m4a`.
pub open spec fn is_music_name(f: Seq<char>) -> bool {
    ends_with(f, ".flac"@) || ends_with(f, ".mp3"@) || ends_with(f, ".wav"@) || ends_with(
        f,
        ".m4a"@,
    )
}

/// Number of characters of `path` up to and including its last `/`;
/// zero where it has none.
pub open spec fn dir_len(path: Seq<char>) -> int
    decreases path.len(),
{
    if path.len() == 0 {
        0
    } else if path.last() == '/' {
        path.len() as int
    } else {
        dir_len(path.drop_last())
    }
}

/// What follows the last `/` of `path`; all of `path` where it has none.
pub open spec fn base_name(path: Seq<char>) -> Seq<char> {
    path.skip(dir_len(path))
}

/// `s` with `ext` taken from its end as often as it stands there.
pub open spec fn trimmed(s: Seq<char>, ext: Seq<char>) -> Seq<char>
    decreases s.len(),
{
    if ext.len() > 0 && ends_with(s, ext) {
        trimmed(s.take(s.len() - ext.len()), ext)
    } else {
        s
    }
}

/// The title that a file's path gives a song whose tags name none: the
/// file's name, from which the four extensions are taken in turn, each as
/// often as it then stands at the end.
pub open spec fn title_of_path(path: Seq<char>) -> Seq<char> {
    trimmed(trimmed(trimmed(trimmed(base_name(path), ".flac"@), ".mp3"@), ".wav"@), ".m4a"@)
}

/// Where the last `/` of a path is, and that none follows it.
pub proof fn lemma_dir_len(path: Seq<char>)
    ensures
        0 <= dir_len(path) <= path.len(),
        dir_len(path) > 0 ==> path[dir_len(path) - 1] == '/',
        forall|i: int| dir_len(path) <= i < path.len() ==> path[i] != '/',
    decreases path.len(),
{
    if path.len() > 0 && path.last() != '/' {
        let front = path.drop_last();
        lemma_dir_len(front);
        assert forall|i: int| dir_len(path) <= i < path.len() implies path[i] != '/' by {
            if i < front.len() {
                assert(front[i] == path[i]);
            }
        }
    }
}

/// Whether `pat` stands at the end of `s`.
pub fn has_suffix(s: &str, pat: &str) -> (found: bool)
    ensures
        found == ends_with(s@, pat@),
{
    let n: usize = s.unicode_len();
    let k: usize = pat.unicode_len();
    if k > n {
        return false;
    }
    let mut i: usize = 0;
    while i < k
        invariant
            n == s@.len(),
            k == pat@.len(),
            k <= n,
            i <= k,
            forall|j: int| 0 <= j < i ==> s@[n - k + j] == pat@[j],
        decreases k - i,
    {
        if s.get_char(n - k + i) != pat.get_char(i) {
            assert(s@.skip(n - k)[i as int] != pat@[i as int]);
            return false;
        }
        i += 1;
    }
    assert(s@.skip(n - k) =~= pat@);
    true
}

/// Whether a file is taken for music, by the extension of its name.
pub fn is_music_file(f: &str) -> (music: bool)
    ensures
        music == is_music_name(f@),
{
    has_suffix(f, ".flac") || has_suffix(f, ".mp3") || has_suffix(f, ".wav") || has_suffix(
        f,
        ".m4a",
    )
}

/// Takes `ext` from the end of `s` as often as it stands there.
pub fn trim_end<'a>(s: &'a str, ext: &str) -> (rest: &'a str)
    ensures
        rest@ == trimmed(s@, ext@),
{
    let k: usize = ext.unicode_len();
    let mut rest: &'a str = s;
    if k == 0 {
        return rest;
    }
    let mut n: usize = rest.unicode_len();
    while has_suffix(rest, ext)
        invariant
            n == rest@.len(),
            k == ext@.len(),
            k > 0,
            trimmed(rest@, ext@) == trimmed(s@, ext@),
        decreases n,
    {
        rest = rest.substring_char(0, n - k);
        n = n - k;
    }
    rest
}

/// What follows the last `/` of `path`.
pub fn file_name<'a>(path: &'a str) -> (name: &'a str)
    ensures
        name@ == base_name(path@),
{
    let n: usize = path.unicode_len();
    let mut start: usize = n;
    assert(path@.take(n as int) =~= path@);
    while start > 0 && path.get_char(start - 1) != '/'
        invariant
            n == path@.len(),
            start <= n,
            dir_len(path@) == dir_len(path@.take(start as int)),
        decreases start,
    {
        assert(path@.take(start as int).drop_last() =~= path@.take(start - 1));
        start -= 1;
    }
    path.substring_char(start, n)
}

/// The title for a song whose tags name none, made from the path of its
/// file.
pub fn title_from_path(path: &str) -> (title: String)
    ensures
        title@ == title_of_path(path@),
{
    let name = file_name(path);
    let name = trim_end(name, ".flac");
    let name = trim_end(name, ".mp3");
    let name = trim_end(name, ".wav");
    let name = trim_end(name, ".m4a");
    name.to_owned()
}

} // verus!
