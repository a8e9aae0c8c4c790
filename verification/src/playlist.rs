//! The per-guild playlist: an ordered, mutable sequence of track items.

use vstd::prelude::*;

verus! {

/// One queued track. Immutable once constructed; owned exclusively by
/// the playlist that holds it until removed.
pub struct PlaylistItem {
    /// Track title; may be empty while resolution is pending.
    pub title: String,
    /// Source URL the track was resolved from.
    pub url: String,
    /// Optional artist attribution.
    pub artist: Option<String>,
    /// Optional channel attribution.
    pub channel: Option<String>,
    /// Optional thumbnail URL.
    pub thumbnail: Option<String>,
    /// Optional track length in seconds.
    pub duration_secs: Option<u64>,
}

/// Ordered queue of tracks awaiting playback for one guild; index 0 is
/// the next track to play. Indices are always contiguous: removal
/// compacts the sequence, and no operation leaves it partially mutated.
pub struct Playlist {
    items: Vec<PlaylistItem>,
}

impl View for Playlist {
    type V = Seq<PlaylistItem>;

    closed spec fn view(&self) -> Seq<PlaylistItem> {
        self.items@
    }
}

impl Playlist {
    /// An empty playlist.
    pub fn new() -> (r: Playlist)
        ensures
            r@ == Seq::<PlaylistItem>::empty(),
    {
        Playlist { items: Vec::new() }
    }

    /// Number of queued tracks.
    pub fn len(&self) -> (n: usize)
        ensures
            n == self@.len(),
    {
        self.items.len()
    }

    /// The item at the given 0-based index, if any, without removing it.
    pub fn get(&self, index: usize) -> (r: Option<&PlaylistItem>)
        ensures
            index < self@.len() ==> (r matches Some(item) && *item == self@[index as int]),
            index >= self@.len() ==> r is None,
    {
        if index < self.items.len() {
            Some(&self.items[index])
        } else {
            None
        }
    }

    /// Inserts one item at the head; the previous contents follow it.
    pub fn push_front(&mut self, item: PlaylistItem)
        ensures
            final(self)@ == seq![item] + old(self)@,
    {
        self.items.insert(0, item);
        proof {
            assert(self.items@ =~= seq![item] + old(self)@);
        }
    }

    /// Appends one item at the tail.
    pub fn push_back(&mut self, item: PlaylistItem)
        ensures
            final(self)@ == old(self)@.push(item),
    {
        self.items.push(item);
    }

    /// Removes and returns the item at the given 0-based index; returns
    /// `None` exactly when the index is out of bounds, leaving the
    /// playlist untouched. On success the remaining items keep their
    /// relative order and the length shrinks by one.
    pub fn remove(&mut self, index: usize) -> (r: Option<PlaylistItem>)
        ensures
            r is Some <==> index < old(self)@.len(),
            index < old(self)@.len() ==> {
                &&& r == Some(old(self)@[index as int])
                &&& final(self)@ == old(self)@.remove(index as int)
            },
            index >= old(self)@.len() ==> final(self)@ == old(self)@,
    {
        if index < self.items.len() {
            Some(self.items.remove(index))
        } else {
            None
        }
    }

    /// Removes and returns the items of the half-open range
    /// `[from, to)` in their original order; the items before and after
    /// the range stay, in order. The caller validates the range first:
    /// this operation never drains partially.
    pub fn drain_range(&mut self, from: usize, to: usize) -> (removed: Vec<PlaylistItem>)
        requires
            from <= to,
            to <= old(self)@.len(),
        ensures
            removed@ == old(self)@.subrange(from as int, to as int),
            final(self)@ == old(self)@.subrange(0, from as int) + old(self)@.subrange(
                to as int,
                old(self)@.len() as int,
            ),
    {
        let ghost orig = self.items@;
        let mut removed: Vec<PlaylistItem> = Vec::new();
        let count: usize = to - from;
        let mut k: usize = 0;
        while k < count
            invariant
                k <= count,
                count == to - from,
                from <= to <= orig.len(),
                removed@ == orig.subrange(from as int, from + k),
                self.items@ == orig.subrange(0, from as int) + orig.subrange(
                    from + k,
                    orig.len() as int,
                ),
            decreases count - k,
        {
            let ghost prev = self.items@;
            let item = self.items.remove(from);
            proof {
                assert(prev[from as int] == orig[from + k]);
                assert(self.items@ =~= orig.subrange(0, from as int) + orig.subrange(
                    from + k + 1,
                    orig.len() as int,
                ));
            }
            removed.push(item);
            proof {
                assert(removed@ =~= orig.subrange(from as int, from + k + 1));
            }
            k = k + 1;
        }
        proof {
            assert(removed@ =~= orig.subrange(from as int, to as int));
            assert(self.items@ =~= orig.subrange(0, from as int) + orig.subrange(
                to as int,
                orig.len() as int,
            ));
        }
        removed
    }

    /// Appends many items at the tail, preserving their order.
    pub fn extend(&mut self, items: Vec<PlaylistItem>)
        ensures
            final(self)@ == old(self)@ + items@,
    {
        let mut tail = items;
        self.items.append(&mut tail);
    }

    /// Inserts many items at the head, preserving their relative order;
    /// the previous contents follow them, not interleaved.
    pub fn splice_front(&mut self, items: Vec<PlaylistItem>)
        ensures
            final(self)@ == items@ + old(self)@,
    {
        let mut front = items;
        front.append(&mut self.items);
        self.items = front;
    }
}

} // verus!
