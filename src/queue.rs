use vstd::prelude::*;

use crate::error::CommandError;

verus! {

/// A playable track: where its audio comes from and what to call it.
#[derive(Debug, Clone, PartialEq, Eq)]
pub struct Track {
    pub url: String,
    pub name: String,
}

/// The ordered tracks of one guild. Position 0, when present, is the track
/// now playing; positions 1.. are pending, in the order they will play.
#[derive(Debug)]
pub struct TrackQueue {
    tracks: Vec<Track>,
}

/// The sequence after the newest track is spliced in right behind the
/// now-playing slot; sequences of length under two stay as they are.
pub open spec fn promoted(s: Seq<Track>) -> Seq<Track> {
    if s.len() >= 2 {
        seq![s[0]].push(s.last()) + s.subrange(1, s.len() - 1)
    } else {
        s
    }
}

/// The sequence with the entries at `i` and `j` exchanged.
pub open spec fn swapped(s: Seq<Track>, i: int, j: int) -> Seq<Track> {
    s.update(i, s[j]).update(j, s[i])
}

impl View for TrackQueue {
    type V = Seq<Track>;

    closed spec fn view(&self) -> Seq<Track> {
        self.tracks@
    }
}

impl TrackQueue {
    /// An empty queue: nothing playing, nothing pending.
    pub fn new() -> (r: TrackQueue)
        ensures
            r@ == Seq::<Track>::empty(),
    {
        TrackQueue { tracks: Vec::new() }
    }

    /// Number of tracks, the now-playing one included.
    pub fn len(&self) -> (r: usize)
        ensures
            r == self@.len(),
    {
        self.tracks.len()
    }

    /// The track at `index`, if there is one.
    pub fn get(&self, index: usize) -> (r: Option<&Track>)
        ensures
            index < self@.len() ==> r == Some(&self@[index as int]),
            index >= self@.len() ==> r is None,
    {
        if index < self.tracks.len() {
            Some(&self.tracks[index])
        } else {
            None
        }
    }

    /// Appends `track` at the end and returns the new length, which is the
    /// track's 1-based position in the queue.
    pub fn queue_track(&mut self, track: Track) -> (r: usize)
        requires
            old(self)@.len() < usize::MAX,
        ensures
            final(self)@ == old(self)@.push(track),
            r == final(self)@.len(),
    {
        self.tracks.push(track);
        self.tracks.len()
    }

    /// Takes the now-playing track off the front, so that the next pending
    /// track becomes the one playing. An empty queue stays empty.
    pub fn pop_track(&mut self) -> (r: Result<Track, CommandError>)
        ensures
            old(self)@.len() == 0 ==> r == Err::<Track, CommandError>(CommandError::NothingPlaying)
                && *final(self) == *old(self),
            old(self)@.len() > 0 ==> r == Ok::<Track, CommandError>(old(self)@[0])
                && final(self)@ == old(self)@.drop_first(),
    {
        if self.tracks.len() == 0 {
            return Err(CommandError::NothingPlaying);
        }
        let t = self.tracks.remove(0);
        assert(self.tracks@ =~= old(self)@.drop_first());
        Ok(t)
    }

    /// Splices out the track at `index` (0 is the one playing) and hands it
    /// back; an index past the end fails and changes nothing.
    pub fn remove_track(&mut self, index: usize) -> (r: Result<Track, CommandError>)
        ensures
            index >= old(self)@.len() ==> r == Err::<Track, CommandError>(
                CommandError::IndexOutOfRange,
            ) && *final(self) == *old(self),
            index < old(self)@.len() ==> r == Ok::<Track, CommandError>(old(self)@[index as int])
                && final(self)@ == old(self)@.remove(index as int),
    {
        if index >= self.tracks.len() {
            return Err(CommandError::IndexOutOfRange);
        }
        let t = self.tracks.remove(index);
        Ok(t)
    }

    /// Exchanges the pending tracks at positions `i` and `j`. Either index
    /// past the end fails with `IndexOutOfRange`; an index of 0 fails with
    /// `NowPlayingLocked`, since the track playing is only changed by a skip.
    /// A failure changes nothing; the length never changes.
    pub fn swap_tracks(&mut self, i: usize, j: usize) -> (r: Result<(), CommandError>)
        ensures
            final(self)@.len() == old(self)@.len(),
            i >= old(self)@.len() || j >= old(self)@.len() ==> r == Err::<(), CommandError>(
                CommandError::IndexOutOfRange,
            ) && *final(self) == *old(self),
            i < old(self)@.len() && j < old(self)@.len() && (i == 0 || j == 0) ==> r == Err::<
                (),
                CommandError,
            >(CommandError::NowPlayingLocked) && *final(self) == *old(self),
            0 < i < old(self)@.len() && 0 < j < old(self)@.len() ==> r == Ok::<(), CommandError>(())
                && final(self)@ == swapped(old(self)@, i as int, j as int),
    {
        let n = self.tracks.len();
        if i >= n || j >= n {
            return Err(CommandError::IndexOutOfRange);
        }
        if i == 0 || j == 0 {
            return Err(CommandError::NowPlayingLocked);
        }
        if i == j {
            assert(self.tracks@ =~= swapped(old(self)@, i as int, j as int));
            return Ok(());
        }
        let lo = if i < j { i } else { j };
        let hi = if i < j { j } else { i };
        let ghost s = self.tracks@;
        let b = self.tracks.remove(hi);
        let a = self.tracks.remove(lo);
        self.tracks.insert(lo, b);
        self.tracks.insert(hi, a);
        assert(self.tracks@ =~= swapped(s, i as int, j as int));
        Ok(())
    }

    /// Moves the newest track to position 1, right behind the one playing,
    /// keeping the order of the others. With fewer than two tracks nothing
    /// is playing ahead of it, and the queue is left as it is.
    pub fn promote_latest(&mut self)
        ensures
            final(self)@ == promoted(old(self)@),
    {
        if self.tracks.len() >= 2 {
            let ghost s = self.tracks@;
            match self.tracks.pop() {
                Some(t) => {
                    self.tracks.insert(1, t);
                },
                None => {},
            }
            assert(self.tracks@ =~= promoted(s));
        }
    }
}

} // verus!

verus! {

/// Reordering never changes which tracks a queue holds, nor how many: a
/// swap of two positions and the splice of the newest track keep the same
/// tracks, so only appending, removing and skipping change the length.
pub proof fn lemma_reorders_keep_tracks(s: Seq<Track>, i: int, j: int)
    requires
        0 <= i < s.len(),
        0 <= j < s.len(),
    ensures
        swapped(s, i, j).len() == s.len(),
        promoted(s).len() == s.len(),
        swapped(s, i, j).to_multiset() == s.to_multiset(),
        promoted(s).to_multiset() == s.to_multiset(),
{
    broadcast use vstd::seq_lib::to_multiset_update, vstd::seq_lib::to_multiset_remove,
        vstd::seq_lib::to_multiset_insert, vstd::seq_lib::to_multiset_contains,
        vstd::multiset::group_multiset_axioms;

    let u = s.update(i, s[j]);
    assert(u.to_multiset() == s.to_multiset().insert(s[j]).remove(s[i]));
    assert(u.update(j, s[i]).to_multiset() == u.to_multiset().insert(s[i]).remove(u[j]));
    if i == j {
        assert(swapped(s, i, j) =~= s);
    } else {
        assert(u[j] == s[j]);
        assert(s.contains(s[i]) && s.contains(s[j]));
        assert(s.to_multiset().count(s[i]) > 0 && s.to_multiset().count(s[j]) > 0);
        assert(swapped(s, i, j).to_multiset() =~= s.to_multiset());
    }
    if s.len() >= 2 {
        let n = s.len() - 1;
        let r = s.remove(n);
        assert(promoted(s) =~= r.insert(1, s[n]));
        assert(r.insert(1, s[n]).to_multiset() == r.to_multiset().insert(s[n]));
        assert(r.to_multiset() == s.to_multiset().remove(s[n]));
        assert(s.contains(s[n]));
        assert(s.to_multiset().count(s[n]) > 0);
        assert(promoted(s).to_multiset() =~= s.to_multiset());
    }
}

} // verus!
