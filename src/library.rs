//! Which files the player takes in, and the search over the collection.
//!
//! Extensions and search terms are compared after Unicode lowercasing.
use vstd::prelude::*;
use crate::text::{contains_str, contains_text, same_text};

verus! {

/// What `str::to_lowercase` makes of a text.
pub uninterp spec fn lower_of(s: Seq<char>) -> Seq<char>;

/// Relies on `str::to_lowercase`: the Unicode lowercase mapping, which
/// depends on the characters alone.
#[verifier::external_body]
fn lowercase(s: &str) -> (r: String)
    ensures
        r@ == lower_of(s@),
{
    s.to_lowercase()
}

/// The lowercase extensions of the audio files a folder scan takes in.
pub open spec fn is_playable_lower(ext: Seq<char>) -> bool {
    ||| ext == "mp3"@
    ||| ext == "wav"@
    ||| ext == "flac"@
    ||| ext == "ogg"@
}

/// Whether an already lowercased extension names a playable audio file.
pub fn is_playable_lowercase(ext: &str) -> (r: bool)
    ensures
        r == is_playable_lower(ext@),
{
    same_text(ext, "mp3") || same_text(ext, "wav") || same_text(ext, "flac") || same_text(
        ext,
        "ogg",
    )
}

/// Whether a file extension, in any case, names a playable audio file.
pub fn is_playable_extension(ext: &str) -> (r: bool)
    ensures
        r == is_playable_lower(lower_of(ext@)),
{
    let lower = lowercase(ext);
    is_playable_lowercase(lower.as_str())
}

/// Whether a file extension, in any case, is that of the downloaded tracks
/// the collection lists.
pub fn is_collection_extension(ext: &str) -> (r: bool)
    ensures
        r == (lower_of(ext@) == "mp3"@),
{
    let lower = lowercase(ext);
    same_text(lower.as_str(), "mp3")
}

/// Whether a title matches a search term, ignoring case: the lowercased
/// term occurs in the lowercased title.
pub fn matches_search(title: &str, term: &str) -> (r: bool)
    ensures
        r == contains_text(lower_of(title@), lower_of(term@)),
{
    let t = lowercase(title);
    let q = lowercase(term);
    contains_str(t.as_str(), q.as_str())
}

/// Whether the search `term` keeps `title`: an empty term keeps every
/// title.
pub open spec fn search_keeps(title: Seq<char>, term: Seq<char>) -> bool {
    term.len() == 0 || contains_text(lower_of(title), lower_of(term))
}

/// Positions, in order, of the titles that the search `term` keeps.
pub fn search_titles(titles: &Vec<String>, term: &str) -> (r: Vec<usize>)
    ensures
        forall|k: int|
            0 <= k < r@.len() ==> r@[k] < titles@.len() && search_keeps(
                titles@[r@[k] as int]@,
                term@,
            ),
        forall|i: int|
            0 <= i < titles@.len() && #[trigger] search_keeps(titles@[i]@, term@) ==> r@.contains(
                i as usize,
            ),
        forall|a: int, b: int| 0 <= a < b < r@.len() ==> r@[a] < r@[b],
{
    let everything = term.unicode_len() == 0;
    let mut r: Vec<usize> = Vec::new();
    let mut i: usize = 0;
    while i < titles.len()
        invariant
            i <= titles@.len(),
            everything == (term@.len() == 0),
            forall|k: int|
                0 <= k < r@.len() ==> r@[k] < i && search_keeps(titles@[r@[k] as int]@, term@),
            forall|j: int|
                0 <= j < i && #[trigger] search_keeps(titles@[j]@, term@) ==> r@.contains(
                    j as usize,
                ),
            forall|a: int, b: int| 0 <= a < b < r@.len() ==> r@[a] < r@[b],
        decreases titles@.len() - i,
    {
        let keep = everything || matches_search(titles[i].as_str(), term);
        assert(keep == search_keeps(titles@[i as int]@, term@));
        if keep {
            let ghost before = r@;
            r.push(i);
            assert forall|j: int|
                0 <= j < i + 1 && #[trigger] search_keeps(titles@[j]@, term@) implies r@.contains(
                j as usize,
            ) by {
                if j < i {
                    assert(before.contains(j as usize));
                    let k = choose|k: int| 0 <= k < before.len() && before[k] == j as usize;
                    assert(r@[k] == j as usize);
                } else {
                    assert(r@[r@.len() - 1] == j as usize);
                }
            }
        }
        i = i + 1;
    }
    r
}

} // verus!
