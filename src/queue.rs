//! The play queue: the tracks in order, the one playing, and how next and
//! previous move through them in order or at random.
use vstd::prelude::*;

verus! {

/// The track after `current` in order, wrapping to the first.
pub open spec fn next_in_order(len: nat, current: Option<usize>) -> usize {
    match current {
        Some(i) if i + 1 < len => (i + 1) as usize,
        _ => 0,
    }
}

/// The track before `current` in order, wrapping to the last.
pub open spec fn prev_in_order(len: nat, current: Option<usize>) -> usize {
    match current {
        Some(i) if i > 0 => (i - 1) as usize,
        _ => (len - 1) as usize,
    }
}

/// The positions a shuffled move may land on: every track but the one
/// playing, in ascending order.
pub fn shuffle_candidates(len: usize, current: Option<usize>) -> (r: Vec<usize>)
    ensures
        forall|x: usize| r@.contains(x) <==> (x < len && current != Some(x)),
        forall|a: int, b: int| 0 <= a < b < r@.len() ==> r@[a] < r@[b],
{
    let mut r: Vec<usize> = Vec::new();
    let mut i: usize = 0;
    while i < len
        invariant
            i <= len,
            forall|x: usize| r@.contains(x) <==> (x < i && current != Some(x)),
            forall|a: int, b: int| 0 <= a < b < r@.len() ==> r@[a] < r@[b],
            forall|a: int| 0 <= a < r@.len() ==> r@[a] < i,
        decreases len - i,
    {
        let keep = match current {
            Some(c) => c != i,
            None => true,
        };
        if keep {
            let ghost before = r@;
            r.push(i);
            assert forall|x: usize| r@.contains(x) <==> (x < i + 1 && current != Some(x)) by {
                if r@.contains(x) && x != i {
                    let k = choose|k: int| 0 <= k < r@.len() && r@[k] == x;
                    assert(before[k] == x);
                    assert(before.contains(x));
                }
                if x < i && current != Some(x) {
                    assert(before.contains(x));
                    let k = choose|k: int| 0 <= k < before.len() && before[k] == x;
                    assert(r@[k] == x);
                }
                if x == i {
                    assert(current != Some(i));
                    assert(r@[r@.len() - 1] == x);
                }
            }
        } else {
            assert forall|x: usize| r@.contains(x) <==> (x < i + 1 && current != Some(x)) by {
                if r@.contains(x) {
                    let k = choose|k: int| 0 <= k < r@.len() && r@[k] == x;
                    assert(r@[k] < i);
                }
            }
        }
        i = i + 1;
    }
    r
}

/// Relies on rand's `SliceRandom::choose` with the thread-local generator:
/// `None` exactly for an empty slice, else one of its elements.
#[verifier::external_body]
fn choose_index(v: &Vec<usize>) -> (r: Option<usize>)
    ensures
        r is None <==> v@.len() == 0,
        r matches Some(x) ==> v@.contains(x),
{
    rand::seq::SliceRandom::choose(v.as_slice(), &mut rand::thread_rng()).copied()
}

/// The tracks, the position of the one playing, and whether moves shuffle.
pub struct PlayQueue<T> {
    items: Vec<T>,
    current: Option<usize>,
    shuffle: bool,
}

impl<T> PlayQueue<T> {
    /// The tracks in queue order.
    pub closed spec fn items_spec(&self) -> Seq<T> {
        self.items@
    }

    /// Position of the track playing, if any.
    pub closed spec fn current_spec(&self) -> Option<usize> {
        self.current
    }

    /// Whether next and previous pick at random.
    pub closed spec fn shuffle_spec(&self) -> bool {
        self.shuffle
    }

    /// The position playing lies in the queue.
    pub open spec fn well_formed(&self) -> bool {
        self.current_spec() matches Some(i) ==> i < self.items_spec().len()
    }

    /// An empty queue, nothing playing, shuffle off.
    pub fn new() -> (r: Self)
        ensures
            r.well_formed(),
            r.items_spec() == Seq::<T>::empty(),
            r.current_spec() is None,
            !r.shuffle_spec(),
    {
        PlayQueue { items: Vec::new(), current: None, shuffle: false }
    }

    /// Number of tracks.
    pub fn len(&self) -> (r: usize)
        ensures
            r == self.items_spec().len(),
    {
        self.items.len()
    }

    /// Whether the queue has no track.
    pub fn is_empty(&self) -> (r: bool)
        ensures
            r == (self.items_spec().len() == 0),
    {
        self.items.len() == 0
    }

    /// The track at position `i`.
    pub fn get(&self, i: usize) -> (r: &T)
        requires
            i < self.items_spec().len(),
        ensures
            *r == self.items_spec()[i as int],
    {
        &self.items[i]
    }

    /// Position of the track playing, if any.
    pub fn current(&self) -> (r: Option<usize>)
        ensures
            r == self.current_spec(),
    {
        self.current
    }

    /// Whether next and previous pick at random.
    pub fn shuffle(&self) -> (r: bool)
        ensures
            r == self.shuffle_spec(),
    {
        self.shuffle
    }

    /// Turns random order on or off.
    pub fn set_shuffle(&mut self, on: bool)
        ensures
            final(self).items_spec() == old(self).items_spec(),
            final(self).current_spec() == old(self).current_spec(),
            final(self).shuffle_spec() == on,
    {
        self.shuffle = on;
    }

    /// Appends a track. When nothing was playing, the first track becomes
    /// current and `true` is returned: it should start playing.
    pub fn add(&mut self, item: T) -> (start: bool)
        requires
            old(self).well_formed(),
        ensures
            final(self).well_formed(),
            final(self).items_spec() == old(self).items_spec().push(item),
            start == (old(self).current_spec() is None),
            final(self).current_spec() == if start {
                Some(0usize)
            } else {
                old(self).current_spec()
            },
            final(self).shuffle_spec() == old(self).shuffle_spec(),
    {
        self.items.push(item);
        if self.current.is_none() {
            self.current = Some(0);
            true
        } else {
            false
        }
    }

    /// Puts a track at the front and makes it current.
    pub fn play_now(&mut self, item: T)
        ensures
            final(self).well_formed(),
            final(self).items_spec() == seq![item] + old(self).items_spec(),
            final(self).current_spec() == Some(0usize),
            final(self).shuffle_spec() == old(self).shuffle_spec(),
    {
        let ghost before = self.items@;
        self.items.insert(0, item);
        assert(self.items@ =~= seq![item] + before);
        self.current = Some(0);
    }

    /// Makes the track at position `i` current.
    pub fn select(&mut self, i: usize)
        requires
            i < old(self).items_spec().len(),
        ensures
            final(self).well_formed(),
            final(self).items_spec() == old(self).items_spec(),
            final(self).current_spec() == Some(i),
            final(self).shuffle_spec() == old(self).shuffle_spec(),
    {
        self.current = Some(i);
    }

    /// Moves to the randomly drawn position `choice`, if there is one and it
    /// lies in the queue; otherwise the current track stays.
    pub fn shuffle_to(&mut self, choice: Option<usize>)
        requires
            old(self).well_formed(),
        ensures
            final(self).well_formed(),
            final(self).items_spec() == old(self).items_spec(),
            final(self).current_spec() == match choice {
                Some(n) if n < old(self).items_spec().len() => Some(n),
                _ => old(self).current_spec(),
            },
            final(self).shuffle_spec() == old(self).shuffle_spec(),
    {
        if let Some(n) = choice {
            if n < self.items.len() {
                self.current = Some(n);
            }
        }
    }

    /// Moves on to the next track: in order, wrapping to the first, or with
    /// shuffle on to a random track other than the current one (staying put
    /// when there is no other). Returns whether the current track should be
    /// (re)started, which is exactly when the queue is not empty.
    pub fn next_track(&mut self) -> (play: bool)
        requires
            old(self).well_formed(),
        ensures
            final(self).well_formed(),
            play == (old(self).items_spec().len() > 0),
            final(self).items_spec() == old(self).items_spec(),
            final(self).shuffle_spec() == old(self).shuffle_spec(),
            !play ==> final(self).current_spec() == old(self).current_spec(),
            play && !old(self).shuffle_spec() ==> final(self).current_spec() == Some(
                next_in_order(old(self).items_spec().len(), old(self).current_spec()),
            ),
            play && old(self).shuffle_spec() ==> shuffled_move(*old(self), *final(self)),
    {
        if self.items.len() == 0 {
            return false;
        }
        if self.shuffle {
            let candidates = shuffle_candidates(self.items.len(), self.current);
            let choice = choose_index(&candidates);
            proof {
                let len = self.items@.len();
                if exists|n: usize| n < len && self.current != Some(n) {
                    let n = choose|n: usize| n < len && self.current != Some(n);
                    assert(candidates@.contains(n));
                }
                if let Some(x) = choice {
                    assert(candidates@.contains(x));
                }
            }
            self.shuffle_to(choice);
        } else {
            self.current = Some(
                match self.current {
                    Some(i) if i + 1 < self.items.len() => i + 1,
                    _ => 0,
                },
            );
        }
        true
    }

    /// Moves back to the previous track: in order, wrapping to the last, or
    /// with shuffle on to a random track other than the current one (staying
    /// put when there is no other). Returns whether the current track should
    /// be (re)started, which is exactly when the queue is not empty.
    pub fn prev_track(&mut self) -> (play: bool)
        requires
            old(self).well_formed(),
        ensures
            final(self).well_formed(),
            play == (old(self).items_spec().len() > 0),
            final(self).items_spec() == old(self).items_spec(),
            final(self).shuffle_spec() == old(self).shuffle_spec(),
            !play ==> final(self).current_spec() == old(self).current_spec(),
            play && !old(self).shuffle_spec() ==> final(self).current_spec() == Some(
                prev_in_order(old(self).items_spec().len(), old(self).current_spec()),
            ),
            play && old(self).shuffle_spec() ==> shuffled_move(*old(self), *final(self)),
    {
        if self.items.len() == 0 {
            return false;
        }
        if self.shuffle {
            let candidates = shuffle_candidates(self.items.len(), self.current);
            let choice = choose_index(&candidates);
            proof {
                let len = self.items@.len();
                if exists|n: usize| n < len && self.current != Some(n) {
                    let n = choose|n: usize| n < len && self.current != Some(n);
                    assert(candidates@.contains(n));
                }
                if let Some(x) = choice {
                    assert(candidates@.contains(x));
                }
            }
            self.shuffle_to(choice);
        } else {
            self.current = Some(
                match self.current {
                    Some(i) if i > 0 => i - 1,
                    _ => self.items.len() - 1,
                },
            );
        }
        true
    }
}

/// A random move: to some track other than the one playing, or nowhere when
/// the queue holds no other track.
pub open spec fn shuffled_move<T>(before: PlayQueue<T>, after: PlayQueue<T>) -> bool {
    let len = before.items_spec().len();
    let others = exists|n: usize| n < len && before.current_spec() != Some(n);
    if others {
        after.current_spec() matches Some(n) && n < len && before.current_spec() != Some(n)
    } else {
        after.current_spec() == before.current_spec()
    }
}

} // verus!
