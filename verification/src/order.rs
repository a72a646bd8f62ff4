use core::cmp::Ordering;
use vstd::prelude::*;
use vstd::relations::total_ordering;
use vstd::string::StringSliceAdditionalSpecFns;
use vstd::utf8::{encode_utf8, encode_utf8_decode_utf8};

verus! {

/// Whether `a` comes before `b` in the order of a dictionary: at the first
/// place where they differ `a` has the smaller byte, or `a` ends there and
/// `b` goes on.
pub open spec fn bytes_lt(a: Seq<u8>, b: Seq<u8>) -> bool
    decreases a.len(),
{
    if b.len() == 0 {
        false
    } else if a.len() == 0 {
        true
    } else if a[0] != b[0] {
        a[0] < b[0]
    } else {
        bytes_lt(a.drop_first(), b.drop_first())
    }
}

/// The order of texts: that of their UTF-8 encodings, byte by byte.
pub open spec fn text_lt(a: Seq<char>, b: Seq<char>) -> bool {
    bytes_lt(encode_utf8(a), encode_utf8(b))
}

/// `a` comes before `b` or is the same text.
pub open spec fn text_le(a: Seq<char>, b: Seq<char>) -> bool {
    a == b || text_lt(a, b)
}

/// Where one sequence of bytes stands against another.
#[derive(Clone, Copy, PartialEq, Eq, Structural, Debug)]
pub enum Rank {
    Before,
    Same,
    After,
}

/// Of two sequences of bytes either one comes before the other or they are
/// the same, and only one of the three holds.
pub proof fn lemma_bytes_order_total(a: Seq<u8>, b: Seq<u8>)
    ensures
        bytes_lt(a, b) || a == b || bytes_lt(b, a),
        !(bytes_lt(a, b) && a == b),
        !(bytes_lt(a, b) && bytes_lt(b, a)),
    decreases a.len(),
{
    if a.len() == 0 || b.len() == 0 {
        if a.len() == 0 && b.len() == 0 {
            assert(a =~= b);
        }
    } else if a[0] == b[0] {
        lemma_bytes_order_total(a.drop_first(), b.drop_first());
        if a.drop_first() == b.drop_first() {
            assert(a =~= seq![a[0]] + a.drop_first());
            assert(b =~= seq![b[0]] + b.drop_first());
        }
    }
}

/// What comes before something that comes before `c` comes before `c`.
pub proof fn lemma_bytes_lt_transitive(a: Seq<u8>, b: Seq<u8>, c: Seq<u8>)
    requires
        bytes_lt(a, b),
        bytes_lt(b, c),
    ensures
        bytes_lt(a, c),
    decreases a.len(),
{
    if a.len() > 0 && a[0] == b[0] && b[0] == c[0] {
        lemma_bytes_lt_transitive(a.drop_first(), b.drop_first(), c.drop_first());
    }
}

/// Of two texts either one comes before the other or they are the same, and
/// only one of the three holds.
pub proof fn lemma_text_order_total(a: Seq<char>, b: Seq<char>)
    ensures
        text_lt(a, b) || a == b || text_lt(b, a),
        !(text_lt(a, b) && a == b),
        !(text_lt(a, b) && text_lt(b, a)),
{
    lemma_bytes_order_total(encode_utf8(a), encode_utf8(b));
    encode_utf8_decode_utf8(a);
    encode_utf8_decode_utf8(b);
}

/// The order of texts passes along a chain.
pub proof fn lemma_text_le_transitive(a: Seq<char>, b: Seq<char>, c: Seq<char>)
    requires
        text_le(a, b),
        text_le(b, c),
    ensures
        text_le(a, c),
{
    if a != b && b != c {
        lemma_bytes_lt_transitive(encode_utf8(a), encode_utf8(b), encode_utf8(c));
    }
}

/// The order of texts is a total order.
pub proof fn lemma_text_le_total()
    ensures
        total_ordering(|a: Seq<char>, b: Seq<char>| text_le(a, b)),
{
    let leq = |a: Seq<char>, b: Seq<char>| text_le(a, b);
    assert forall|x: Seq<char>, y: Seq<char>| #[trigger] leq(x, y) && #[trigger] leq(y, x) implies x
        == y by {
        lemma_text_order_total(x, y);
    }
    assert forall|x: Seq<char>, y: Seq<char>, z: Seq<char>| #[trigger]
        leq(x, y) && #[trigger] leq(y, z) implies leq(x, z) by {
        lemma_text_le_transitive(x, y, z);
    }
    assert forall|x: Seq<char>, y: Seq<char>| #[trigger] leq(x, y) || #[trigger] leq(y, x) by {
        lemma_text_order_total(x, y);
    }
}

/// Where `a` stands against `b` in the order of a dictionary.
pub fn rank_bytes(a: &[u8], b: &[u8]) -> (rank: Rank)
    ensures
        rank == Rank::Before <==> bytes_lt(a@, b@),
        rank == Rank::Same <==> a@ == b@,
        rank == Rank::After <==> bytes_lt(b@, a@),
{
    let n: usize = a.len();
    let m: usize = b.len();
    let mut i: usize = 0;
    assert(a@.skip(0) =~= a@ && b@.skip(0) =~= b@);
    while i < n && i < m
        invariant
            n == a@.len(),
            m == b@.len(),
            i <= n,
            i <= m,
            a@.take(i as int) == b@.take(i as int),
            bytes_lt(a@, b@) == bytes_lt(a@.skip(i as int), b@.skip(i as int)),
        decreases n - i,
    {
        let x: u8 = a[i];
        let y: u8 = b[i];
        proof {
            let ra = a@.skip(i as int);
            let rb = b@.skip(i as int);
            assert(ra[0] == x && rb[0] == y);
            assert(a@[i as int] == x && b@[i as int] == y);
            lemma_bytes_order_total(a@, b@);
            assert(ra.drop_first() =~= a@.skip(i + 1));
            assert(rb.drop_first() =~= b@.skip(i + 1));
        }
        if x < y {
            return Rank::Before;
        }
        if x > y {
            return Rank::After;
        }
        proof {
            assert(a@.take(i + 1) =~= a@.take(i as int).push(x));
            assert(b@.take(i + 1) =~= b@.take(i as int).push(y));
        }
        i += 1;
    }
    proof {
        lemma_bytes_order_total(a@, b@);
        if n == m {
            assert(a@ =~= a@.take(i as int));
            assert(b@ =~= b@.take(i as int));
        }
    }
    if n < m {
        Rank::Before
    } else if n == m {
        Rank::Same
    } else {
        Rank::After
    }
}

/// Whether two texts are the same.
pub fn same_text(a: &str, b: &str) -> (same: bool)
    ensures
        same == (a@ == b@),
{
    proof {
        encode_utf8_decode_utf8(a@);
        encode_utf8_decode_utf8(b@);
    }
    rank_bytes(a.as_bytes(), b.as_bytes()) == Rank::Same
}

/// Compares two texts as `str` orders them: by the bytes of their UTF-8
/// encodings.
pub fn compare_text(a: &str, b: &str) -> (order: Ordering)
    ensures
        order == Ordering::Less <==> text_lt(a@, b@),
        order == Ordering::Equal <==> a@ == b@,
        order == Ordering::Greater <==> text_lt(b@, a@),
{
    proof {
        lemma_text_order_total(a@, b@);
        encode_utf8_decode_utf8(a@);
        encode_utf8_decode_utf8(b@);
    }
    match rank_bytes(a.as_bytes(), b.as_bytes()) {
        Rank::Before => Ordering::Less,
        Rank::Same => Ordering::Equal,
        Rank::After => Ordering::Greater,
    }
}

} // verus!
