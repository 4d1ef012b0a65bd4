use vstd::prelude::*;

use std::collections::HashMap;

use crate::error::CommandError;
use crate::queue::{promoted, swapped, Track, TrackQueue};

verus! {

broadcast use vstd::std_specs::hash::group_hash_axioms;

/// Where a guild's voice connection stands. A guild without a session is
/// disconnected.
#[derive(Debug, Clone, Copy, PartialEq, Eq, Structural)]
pub enum ConnectionState {
    Connecting,
    Connected,
}

/// One guild's voice session: the channel it holds and its track queue.
#[derive(Debug)]
pub struct Session {
    pub channel_id: u64,
    pub state: ConnectionState,
    pub queue: TrackQueue,
}

/// What a play command does after looking the guild up.
#[derive(Debug, Clone, Copy, PartialEq, Eq, Structural)]
pub enum JoinStep {
    /// A connected session exists: use it.
    Ready,
    /// Another command is connecting this guild: wait for it, do not connect.
    Pending,
    /// A session was reserved for the guild: connect to this channel, then
    /// report the outcome with `connect_finished`.
    Connect(u64),
}

/// Where a newly queued track landed.
#[derive(Debug, Clone, Copy, PartialEq, Eq, Structural)]
pub struct Enqueued {
    /// Its 0-based slot in the queue.
    pub index: usize,
    /// The queue was empty before, so the track starts playing now.
    pub start_now: bool,
}

/// A track taken out of a queue, whose stream the caller stops.
#[derive(Debug)]
pub struct Dequeued {
    pub track: Track,
    /// The queue is now empty: the session was dropped and its voice
    /// connection is to be released.
    pub released: bool,
}

/// The sessions of all guilds, at most one per guild id.
#[derive(Debug)]
pub struct Registry {
    sessions: HashMap<u64, Session>,
}

impl View for Registry {
    type V = Map<u64, Session>;

    closed spec fn view(&self) -> Map<u64, Session> {
        self.sessions@
    }
}

/// The guild has a connected session.
pub open spec fn is_connected(m: Map<u64, Session>, guild: u64) -> bool {
    m.contains_key(guild) && m[guild].state == ConnectionState::Connected
}

/// `b` is `a` with its queue replaced by `q`.
pub open spec fn with_queue(a: Session, b: Session, q: Seq<Track>) -> bool {
    b.channel_id == a.channel_id && b.state == a.state && b.queue@ == q
}

/// The effect of `get_or_create(guild, channel)` that turned registry
/// `before` into `after` with result `r`.
pub open spec fn joined(
    before: Map<u64, Session>,
    guild: u64,
    channel: Option<u64>,
    r: Result<JoinStep, CommandError>,
    after: Map<u64, Session>,
) -> bool {
    if before.contains_key(guild) {
        &&& after == before
        &&& r == if before[guild].state == ConnectionState::Connected {
            Ok::<JoinStep, CommandError>(JoinStep::Ready)
        } else {
            Ok::<JoinStep, CommandError>(JoinStep::Pending)
        }
    } else {
        match channel {
            None => after == before && r == Err::<JoinStep, CommandError>(
                CommandError::NoVoiceChannel,
            ),
            Some(c) => {
                &&& r == Ok::<JoinStep, CommandError>(JoinStep::Connect(c))
                &&& after.contains_key(guild)
                &&& after.remove(guild) == before
                &&& after[guild].channel_id == c
                &&& after[guild].state == ConnectionState::Connecting
                &&& after[guild].queue@.len() == 0
            },
        }
    }
}

/// Registry `after` is `before` with the track at `index` of the guild's
/// queue taken out as `d`; a queue left empty takes its session with it.
pub open spec fn took(
    before: Map<u64, Session>,
    guild: u64,
    index: int,
    d: Dequeued,
    after: Map<u64, Session>,
) -> bool {
    let q = before[guild].queue@;
    &&& d.track == q[index]
    &&& d.released == (q.len() == 1)
    &&& if q.len() == 1 {
        after == before.remove(guild)
    } else {
        &&& after.contains_key(guild)
        &&& with_queue(before[guild], after[guild], q.remove(index))
    }
}

impl Registry {
    /// A registry with no sessions.
    pub fn new() -> (r: Registry)
        ensures
            r@ == Map::<u64, Session>::empty(),
    {
        Registry { sessions: HashMap::new() }
    }

    /// The guild's session, if it has one.
    pub fn session(&self, guild: u64) -> (r: Option<&Session>)
        ensures
            self@.contains_key(guild) ==> r == Some(&self@[guild]),
            !self@.contains_key(guild) ==> r is None,
    {
        self.sessions.get(&guild)
    }

    /// Looks the guild up and, when it has no session, reserves one for the
    /// caller's voice channel. Lookup and reservation are one step, so of
    /// two commands racing for an unconnected guild only the first is told
    /// to connect. Without a session and without a channel it fails with
    /// `NoVoiceChannel`.
    pub fn get_or_create(&mut self, guild: u64, channel: Option<u64>) -> (r: Result<
        JoinStep,
        CommandError,
    >)
        ensures
            joined(old(self)@, guild, channel, r, final(self)@),
    {
        match self.sessions.get(&guild) {
            Some(s) => {
                if s.state == ConnectionState::Connected {
                    Ok(JoinStep::Ready)
                } else {
                    Ok(JoinStep::Pending)
                }
            },
            None => match channel {
                None => Err(CommandError::NoVoiceChannel),
                Some(c) => {
                    let s = Session {
                        channel_id: c,
                        state: ConnectionState::Connecting,
                        queue: TrackQueue::new(),
                    };
                    self.sessions.insert(guild, s);
                    assert(self.sessions@.remove(guild) =~= old(self)@);
                    Ok(JoinStep::Connect(c))
                },
            },
        }
    }

    /// Records how the connect that `get_or_create` asked for went: on
    /// success the reserved session becomes connected, on failure it is
    /// dropped, so no half-made session is left behind. Without a
    /// reservation for the guild it fails with `NoSession`.
    pub fn connect_finished(&mut self, guild: u64, connected: bool) -> (r: Result<(), CommandError>)
        ensures
            final(self)@.remove(guild) == old(self)@.remove(guild),
            !(old(self)@.contains_key(guild) && old(self)@[guild].state
                == ConnectionState::Connecting) ==> r == Err::<(), CommandError>(
                CommandError::NoSession,
            ) && final(self)@ == old(self)@,
            old(self)@.contains_key(guild) && old(self)@[guild].state
                == ConnectionState::Connecting ==> r == Ok::<(), CommandError>(()) && if connected {
                &&& final(self)@.contains_key(guild)
                &&& final(self)@[guild].state == ConnectionState::Connected
                &&& final(self)@[guild].channel_id == old(self)@[guild].channel_id
                &&& final(self)@[guild].queue@ == old(self)@[guild].queue@
            } else {
                final(self)@ == old(self)@.remove(guild)
            },
    {
        let taken = self.sessions.remove(&guild);
        match taken {
            Some(s) => {
                if s.state != ConnectionState::Connecting {
                    self.sessions.insert(guild, s);
                    assert(self.sessions@ =~= old(self)@);
                    return Err(CommandError::NoSession);
                }
                if connected {
                    let Session { channel_id, state: _, queue } = s;
                    let up = Session { channel_id, state: ConnectionState::Connected, queue };
                    self.sessions.insert(guild, up);
                    assert(self.sessions@.remove(guild) =~= old(self)@.remove(guild));
                }
                Ok(())
            },
            None => {
                assert(self.sessions@ =~= old(self)@);
                Err(CommandError::NoSession)
            },
        }
    }

    /// Appends `track` to the guild's queue; with `on_top` it then moves to
    /// slot 1, right behind the track playing, or stays in slot 0 when
    /// nothing plays. A track put into an empty queue starts playing at
    /// once. Fails with `NoSession` unless the guild is connected, and with
    /// `QueueFull` when the queue's length cannot grow.
    pub fn enqueue(&mut self, guild: u64, track: Track, on_top: bool) -> (r: Result<
        Enqueued,
        CommandError,
    >)
        ensures
            final(self)@.remove(guild) == old(self)@.remove(guild),
            !is_connected(old(self)@, guild) ==> r == Err::<Enqueued, CommandError>(
                CommandError::NoSession,
            ) && final(self)@ == old(self)@,
            is_connected(old(self)@, guild) && old(self)@[guild].queue@.len() == usize::MAX ==> r
                == Err::<Enqueued, CommandError>(CommandError::QueueFull) && final(self)@
                == old(self)@,
            is_connected(old(self)@, guild) && old(self)@[guild].queue@.len() < usize::MAX ==> {
                let q = old(self)@[guild].queue@;
                let pushed = q.push(track);
                &&& final(self)@.contains_key(guild)
                &&& with_queue(
                    old(self)@[guild],
                    final(self)@[guild],
                    if on_top {
                        promoted(pushed)
                    } else {
                        pushed
                    },
                )
                &&& r == Ok::<Enqueued, CommandError>(
                    Enqueued {
                        index: if on_top && q.len() > 0 {
                            1
                        } else {
                            q.len() as usize
                        },
                        start_now: q.len() == 0,
                    },
                )
            },
    {
        let taken = self.sessions.remove(&guild);
        match taken {
            Some(s) => {
                if s.state != ConnectionState::Connected || s.queue.len() == usize::MAX {
                    let full = s.state == ConnectionState::Connected;
                    self.sessions.insert(guild, s);
                    assert(self.sessions@ =~= old(self)@);
                    return if full {
                        Err(CommandError::QueueFull)
                    } else {
                        Err(CommandError::NoSession)
                    };
                }
                let mut s = s;
                let before = s.queue.len();
                s.queue.queue_track(track);
                if on_top {
                    s.queue.promote_latest();
                }
                self.sessions.insert(guild, s);
                assert(self.sessions@.remove(guild) =~= old(self)@.remove(guild));
                let index = if on_top && before > 0 {
                    1
                } else {
                    before
                };
                Ok(Enqueued { index, start_now: before == 0 })
            },
            None => {
                assert(self.sessions@ =~= old(self)@);
                Err(CommandError::NoSession)
            },
        }
    }

    /// Takes the track at `index` out of a connected guild's queue, and drops
    /// the session once its queue is empty.
    fn take(&mut self, guild: u64, index: usize) -> (d: Dequeued)
        requires
            is_connected(old(self)@, guild),
            index < old(self)@[guild].queue@.len(),
        ensures
            final(self)@.remove(guild) == old(self)@.remove(guild),
            took(old(self)@, guild, index as int, d, final(self)@),
    {
        let mut s = self.sessions.remove(&guild).unwrap();
        let track = s.queue.remove_track(index).unwrap();
        if s.queue.len() == 0 {
            assert(self.sessions@ =~= old(self)@.remove(guild));
            Dequeued { track, released: true }
        } else {
            self.sessions.insert(guild, s);
            assert(self.sessions@.remove(guild) =~= old(self)@.remove(guild));
            Dequeued { track, released: false }
        }
    }

    /// Stops the track playing and lets the next pending one play. The end
    /// of a track goes through here as well. Fails with `NoSession` unless
    /// the guild is connected, and with `NothingPlaying` on an empty queue;
    /// neither failure changes anything.
    pub fn skip(&mut self, guild: u64) -> (r: Result<Dequeued, CommandError>)
        ensures
            final(self)@.remove(guild) == old(self)@.remove(guild),
            !is_connected(old(self)@, guild) ==> r == Err::<Dequeued, CommandError>(
                CommandError::NoSession,
            ) && final(self)@ == old(self)@,
            is_connected(old(self)@, guild) && old(self)@[guild].queue@.len() == 0 ==> r == Err::<
                Dequeued,
                CommandError,
            >(CommandError::NothingPlaying) && final(self)@ == old(self)@,
            is_connected(old(self)@, guild) && old(self)@[guild].queue@.len() > 0 ==> (r matches Ok(d)
                && took(old(self)@, guild, 0, d, final(self)@)),
    {
        match self.sessions.get(&guild) {
            None => {
                return Err(CommandError::NoSession);
            },
            Some(s) => {
                if s.state != ConnectionState::Connected {
                    return Err(CommandError::NoSession);
                }
                if s.queue.len() == 0 {
                    return Err(CommandError::NothingPlaying);
                }
            },
        }
        Ok(self.take(guild, 0))
    }

    /// Takes the track at `index` out of the guild's queue; index 0 is the
    /// track playing and goes the way of a skip. Fails with `NoSession`
    /// unless the guild is connected, and with `IndexOutOfRange` for an
    /// index past the end; neither failure changes anything.
    pub fn remove(&mut self, guild: u64, index: usize) -> (r: Result<Dequeued, CommandError>)
        ensures
            final(self)@.remove(guild) == old(self)@.remove(guild),
            !is_connected(old(self)@, guild) ==> r == Err::<Dequeued, CommandError>(
                CommandError::NoSession,
            ) && final(self)@ == old(self)@,
            is_connected(old(self)@, guild) && index >= old(self)@[guild].queue@.len() ==> r
                == Err::<Dequeued, CommandError>(CommandError::IndexOutOfRange) && final(self)@
                == old(self)@,
            is_connected(old(self)@, guild) && index < old(self)@[guild].queue@.len() ==> (r matches Ok(d)
                && took(old(self)@, guild, index as int, d, final(self)@)),
    {
        match self.sessions.get(&guild) {
            None => {
                return Err(CommandError::NoSession);
            },
            Some(s) => {
                if s.state != ConnectionState::Connected {
                    return Err(CommandError::NoSession);
                }
                if index >= s.queue.len() {
                    return Err(CommandError::IndexOutOfRange);
                }
            },
        }
        Ok(self.take(guild, index))
    }

    /// Exchanges the pending tracks at positions `i` and `j` of the guild's
    /// queue, as `TrackQueue::swap_tracks` does. Fails with `NoSession`
    /// unless the guild is connected. The length of the queue never changes.
    pub fn move_tracks(&mut self, guild: u64, i: usize, j: usize) -> (r: Result<(), CommandError>)
        ensures
            final(self)@.remove(guild) == old(self)@.remove(guild),
            !is_connected(old(self)@, guild) ==> r == Err::<(), CommandError>(
                CommandError::NoSession,
            ) && final(self)@ == old(self)@,
            is_connected(old(self)@, guild) ==> {
                let q = old(self)@[guild].queue@;
                &&& final(self)@.contains_key(guild)
                &&& final(self)@[guild].queue@.len() == q.len()
                &&& (i >= q.len() || j >= q.len()) ==> r == Err::<(), CommandError>(
                    CommandError::IndexOutOfRange,
                ) && final(self)@ == old(self)@
                &&& (i < q.len() && j < q.len() && (i == 0 || j == 0)) ==> r == Err::<
                    (),
                    CommandError,
                >(CommandError::NowPlayingLocked) && final(self)@ == old(self)@
                &&& (0 < i < q.len() && 0 < j < q.len()) ==> r == Ok::<(), CommandError>(())
                    && with_queue(old(self)@[guild], final(self)@[guild], swapped(q, i as int, j as int))
            },
    {
        let taken = self.sessions.remove(&guild);
        match taken {
            Some(s) => {
                if s.state != ConnectionState::Connected {
                    self.sessions.insert(guild, s);
                    assert(self.sessions@ =~= old(self)@);
                    return Err(CommandError::NoSession);
                }
                let mut s = s;
                let r = s.queue.swap_tracks(i, j);
                self.sessions.insert(guild, s);
                assert(self.sessions@.remove(guild) =~= old(self)@.remove(guild));
                proof {
                    if r is Err {
                        assert(self.sessions@ =~= old(self)@);
                    }
                }
                r
            },
            None => {
                assert(self.sessions@ =~= old(self)@);
                Err(CommandError::NoSession)
            },
        }
    }
}

} // verus!

verus! {

/// `get_or_create` answered with an order to connect.
pub open spec fn tells_connect(r: Result<JoinStep, CommandError>) -> bool {
    r matches Ok(JoinStep::Connect(_))
}

/// Two `get_or_create` calls for a guild without a session, one after the
/// other as the registry takes them, never both connect: exactly one does
/// when either caller is in a voice channel, none otherwise. Afterwards the
/// guild holds a single reserved session and no other guild changed.
pub proof fn lemma_single_connect(
    m0: Map<u64, Session>,
    m1: Map<u64, Session>,
    m2: Map<u64, Session>,
    guild: u64,
    c1: Option<u64>,
    c2: Option<u64>,
    r1: Result<JoinStep, CommandError>,
    r2: Result<JoinStep, CommandError>,
)
    requires
        !m0.contains_key(guild),
        joined(m0, guild, c1, r1, m1),
        joined(m1, guild, c2, r2, m2),
    ensures
        !(tells_connect(r1) && tells_connect(r2)),
        (tells_connect(r1) || tells_connect(r2)) <==> (c1 is Some || c2 is Some),
        (c1 is Some || c2 is Some) ==> m2.contains_key(guild) && m2[guild].state
            == ConnectionState::Connecting,
        m2.remove(guild) == m0,
{
    if c1 is Some {
        assert(m1.contains_key(guild));
        assert(m2 == m1);
    } else {
        assert(m1 == m0);
    }
}

/// A command for one guild leaves every other guild's session as it was:
/// each mutating method of `Registry` ensures
/// `final.remove(guild) == old.remove(guild)`, from which this follows.
pub proof fn lemma_other_guilds_untouched(
    before: Map<u64, Session>,
    after: Map<u64, Session>,
    guild: u64,
    other: u64,
)
    requires
        after.remove(guild) == before.remove(guild),
        other != guild,
    ensures
        after.contains_key(other) == before.contains_key(other),
        before.contains_key(other) ==> after[other] == before[other],
{
    assert(before.remove(guild).contains_key(other) == before.contains_key(other));
    assert(after.remove(guild).contains_key(other) == after.contains_key(other));
    if before.contains_key(other) {
        assert(before.remove(guild)[other] == before[other]);
        assert(after.remove(guild)[other] == after[other]);
    }
}

} // verus!
