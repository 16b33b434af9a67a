//! Cleanup of downloaded track titles: promotional tags are cut out, and at
//! most six words are kept, joined by single spaces.
use vstd::prelude::*;
use crate::text::{chars_of, matches_at};

verus! {

/// Words kept in a cleaned title.
pub const TITLE_WORDS: usize = 6;

/// Unicode `White_Space`, the set `char::is_whitespace` tests.
pub open spec fn is_space(c: char) -> bool {
    let u = c as u32;
    ||| 0x9 <= u <= 0xD
    ||| u == 0x20
    ||| u == 0x85
    ||| u == 0xA0
    ||| u == 0x1680
    ||| 0x2000 <= u <= 0x200A
    ||| u == 0x2028
    ||| u == 0x2029
    ||| u == 0x202F
    ||| u == 0x205F
    ||| u == 0x3000
}

/// Whether `c` is white space.
pub fn is_space_char(c: char) -> (r: bool)
    ensures
        r == is_space(c),
{
    let u = c as u32;
    (0x9 <= u && u <= 0xD) || u == 0x20 || u == 0x85 || u == 0xA0 || u == 0x1680 || (0x2000 <= u
        && u <= 0x200A) || u == 0x2028 || u == 0x2029 || u == 0x202F || u == 0x205F || u == 0x3000
}

/// `s` with every occurrence of `pat` cut out, matched left to right without
/// overlap (as `str::replace(pat, "")` does).
pub open spec fn remove_all(s: Seq<char>, pat: Seq<char>) -> Seq<char>
    decreases s.len(),
{
    if pat.len() == 0 || s.len() < pat.len() {
        s
    } else if s.subrange(0, pat.len() as int) == pat {
        remove_all(s.subrange(pat.len() as int, s.len() as int), pat)
    } else {
        seq![s[0]] + remove_all(s.subrange(1, s.len() as int), pat)
    }
}

/// The title with the promotional tags cut out, one tag after the other.
pub open spec fn strip_tags(s: Seq<char>) -> Seq<char> {
    let s = remove_all(s, "[Official Music Video]"@);
    let s = remove_all(s, "(Official Music Video)"@);
    let s = remove_all(s, "Official Music Video"@);
    let s = remove_all(s, "[Official Video]"@);
    let s = remove_all(s, "(Official Video)"@);
    let s = remove_all(s, "Official Video"@);
    let s = remove_all(s, "[Lyrics]"@);
    let s = remove_all(s, "(Lyrics)"@);
    remove_all(s, "Lyrics"@)
}

/// The maximal runs of non-space characters of `s`, in order.
pub open spec fn words(s: Seq<char>) -> Seq<Seq<char>>
    decreases s.len(),
{
    if s.len() == 0 {
        seq![]
    } else {
        let prev = words(s.drop_last());
        let c = s.last();
        if is_space(c) {
            prev
        } else if s.len() >= 2 && !is_space(s[s.len() - 2]) {
            prev.update(prev.len() - 1, prev.last().push(c))
        } else {
            prev.push(seq![c])
        }
    }
}

/// The words joined by single spaces.
pub open spec fn join_words(ws: Seq<Seq<char>>) -> Seq<char>
    decreases ws.len(),
{
    if ws.len() == 0 {
        seq![]
    } else if ws.len() == 1 {
        ws[0]
    } else {
        join_words(ws.drop_last()) + seq![' '] + ws.last()
    }
}

/// The cleaned form of a raw title.
pub open spec fn cleaned_title(raw: Seq<char>) -> Seq<char> {
    let ws = words(strip_tags(raw));
    join_words(ws.take(if ws.len() < TITLE_WORDS { ws.len() as int } else { TITLE_WORDS as int }))
}

/// `s` with every occurrence of `pat` cut out.
fn remove_occurrences(s: &Vec<char>, pat: &str) -> (r: Vec<char>)
    ensures
        r@ == remove_all(s@, pat@),
{
    let p = chars_of(pat);
    let plen = p.len();
    let n = s.len();
    let mut out: Vec<char> = Vec::new();
    let mut i: usize = 0;
    assert(s@.subrange(0, n as int) =~= s@);
    assert(out@ + s@ =~= s@);
    while i < n
        invariant
            p@ == pat@,
            plen == p@.len(),
            n == s@.len(),
            i <= n,
            remove_all(s@, pat@) == out@ + remove_all(s@.subrange(i as int, n as int), pat@),
        decreases n - i,
    {
        let ghost rest = s@.subrange(i as int, n as int);
        if plen > 0 && plen <= n - i && matches_at(s, i, &p) {
            assert(rest.subrange(0, plen as int) =~= s@.subrange(i as int, i + plen));
            assert(rest.subrange(plen as int, rest.len() as int) =~= s@.subrange(
                i + plen,
                n as int,
            ));
            i = i + plen;
        } else {
            if plen > 0 && plen <= n - i {
                assert(rest.subrange(0, plen as int) =~= s@.subrange(i as int, i + plen));
            } else {
                let ghost tail = s@.subrange(i + 1, n as int);
                assert(plen == 0 || tail.len() < plen);
            }
            assert(rest.subrange(1, rest.len() as int) =~= s@.subrange(i + 1, n as int));
            out.push(s[i]);
            i = i + 1;
            assert(remove_all(s@, pat@) =~= out@ + remove_all(
                s@.subrange(i as int, n as int),
                pat@,
            ));
        }
    }
    assert(s@.subrange(n as int, n as int) =~= Seq::<char>::empty());
    assert(out@ + Seq::<char>::empty() =~= out@);
    out
}

/// A text whose last character is not a space has at least one word.
proof fn lemma_words_nonempty(s: Seq<char>)
    requires
        s.len() > 0,
        !is_space(s.last()),
    ensures
        words(s).len() > 0,
    decreases s.len(),
{
    if s.len() >= 2 && !is_space(s[s.len() - 2]) {
        lemma_words_nonempty(s.drop_last());
    }
}

/// The views of a vector of words.
pub open spec fn word_views(ws: Seq<Vec<char>>) -> Seq<Seq<char>> {
    ws.map_values(|w: Vec<char>| w@)
}

/// The words of `s`.
fn split_words(s: &Vec<char>) -> (r: Vec<Vec<char>>)
    ensures
        word_views(r@) == words(s@),
{
    let n = s.len();
    let mut ws: Vec<Vec<char>> = Vec::new();
    let mut i: usize = 0;
    assert(s@.subrange(0, 0) =~= Seq::<char>::empty());
    assert(word_views(ws@) =~= words(Seq::<char>::empty()));
    while i < n
        invariant
            n == s@.len(),
            i <= n,
            word_views(ws@) == words(s@.subrange(0, i as int)),
        decreases n - i,
    {
        let c = s[i];
        let ghost before = s@.subrange(0, i as int);
        let ghost after = s@.subrange(0, i + 1);
        assert(after.drop_last() =~= before);
        if is_space_char(c) {
        } else if i > 0 && !is_space_char(s[i - 1]) {
            proof {
                lemma_words_nonempty(before);
            }
            let mut w = ws.pop().unwrap();
            w.push(c);
            ws.push(w);
            assert(word_views(ws@) =~= words(after));
        } else {
            let mut w: Vec<char> = Vec::new();
            w.push(c);
            ws.push(w);
            assert(word_views(ws@) =~= words(after));
        }
        i = i + 1;
    }
    assert(s@.subrange(0, n as int) =~= s@);
    ws
}

/// The first `count` words joined by single spaces.
fn join_first(ws: &Vec<Vec<char>>, count: usize) -> (r: Vec<char>)
    requires
        count <= ws@.len(),
    ensures
        r@ == join_words(word_views(ws@).take(count as int)),
{
    let mut out: Vec<char> = Vec::new();
    let mut k: usize = 0;
    assert(word_views(ws@).take(0) =~= Seq::<Seq<char>>::empty());
    while k < count
        invariant
            count <= ws@.len(),
            k <= count,
            out@ == join_words(word_views(ws@).take(k as int)),
        decreases count - k,
    {
        let ghost prefix = out@;
        if k > 0 {
            out.push(' ');
        }
        let w = &ws[k];
        let mut j: usize = 0;
        let ghost start = out@;
        while j < w.len()
            invariant
                out@ == start + w@.subrange(0, j as int),
                j <= w@.len(),
            decreases w@.len() - j,
        {
            out.push(w[j]);
            j = j + 1;
            assert(out@ =~= start + w@.subrange(0, j as int));
        }
        assert(w@.subrange(0, w@.len() as int) =~= w@);
        let ghost taken = word_views(ws@).take(k + 1);
        assert(taken.drop_last() =~= word_views(ws@).take(k as int));
        assert(taken.last() == ws@[k as int]@);
        assert(out@ =~= join_words(taken));
        k = k + 1;
    }
    out
}

/// Relies on `String`'s `FromIterator<char>`: the string of exactly these
/// characters, in order.
#[verifier::external_body]
fn string_from_chars(v: &Vec<char>) -> (r: String)
    ensures
        r@ == v@,
{
    v.iter().collect()
}

/// Removes the promotional tags "[Official Music Video]", "(Official Music
/// Video)", "Official Music Video", the same three forms of "Official Video"
/// and of "Lyrics", in that order, then keeps the first six words of what
/// remains, joined by single spaces.
pub fn clean_title(raw_title: &str) -> (r: String)
    ensures
        r@ == cleaned_title(raw_title@),
{
    let v = chars_of(raw_title);
    let v = remove_occurrences(&v, "[Official Music Video]");
    let v = remove_occurrences(&v, "(Official Music Video)");
    let v = remove_occurrences(&v, "Official Music Video");
    let v = remove_occurrences(&v, "[Official Video]");
    let v = remove_occurrences(&v, "(Official Video)");
    let v = remove_occurrences(&v, "Official Video");
    let v = remove_occurrences(&v, "[Lyrics]");
    let v = remove_occurrences(&v, "(Lyrics)");
    let v = remove_occurrences(&v, "Lyrics");
    let ws = split_words(&v);
    let count = if ws.len() < TITLE_WORDS {
        ws.len()
    } else {
        TITLE_WORDS
    };
    let out = join_first(&ws, count);
    string_from_chars(&out)
}

} // verus!
