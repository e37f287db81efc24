//! The handle on the database in use: which pool serves new work, which
//! retired pool is still draining, and when the file of a retired pool may
//! be removed.
//!
//! The pool itself is whatever the program holds for one: the handle keeps
//! it and hands it out, and never looks inside. What the program sees of a
//! retired pool, its open and its idle connections, it shows to a `Drain`,
//! which says what to do next.

use vstd::prelude::*;
use vstd::string::*;
use crate::text::{join, spec_join, spec_lines, split_lines, starts_with};

verus! {

/// The largest number of connections that a pool is made for.
pub const POOL_MAX_SIZE: u32 = 16;

/// The number of failed polls after which a drain is given up.
pub const DRAIN_MAX_ATTEMPTS: u32 = 60;

/// The seconds to let pass between two polls of a draining pool.
pub const DRAIN_INTERVAL_SECS: u64 = 10;

/// A pool that was taken out of use, with the path of its file.
#[derive(Debug, PartialEq, Eq)]
pub struct Retired<P> {
    pub pool: P,
    pub path: String,
}

/// The pools of the running program: the one that serves all new work, and
/// at most one retired pool that is kept until it has drained.
#[derive(Debug, PartialEq, Eq)]
pub struct DbHandles<P> {
    pub primary: P,
    pub draining: Option<Retired<P>>,
    pub primary_path: String,
}

/// What a `DbHandles` is, with paths as plain text.
pub struct DbHandlesView<P> {
    pub primary: P,
    pub draining: Option<(P, Seq<char>)>,
    pub primary_path: Seq<char>,
}

impl<P> DbHandlesView<P> {
    /// The handles once `new_pool` on `new_path` has taken over: the pool
    /// that served until now is the one that drains, whatever drained
    /// before.
    pub open spec fn swap(self, new_pool: P, new_path: Seq<char>) -> DbHandlesView<P> {
        DbHandlesView {
            primary: new_pool,
            draining: Some((self.primary, self.primary_path)),
            primary_path: new_path,
        }
    }

    /// The handles once the draining slot has been emptied.
    pub open spec fn cleared(self) -> DbHandlesView<P> {
        DbHandlesView { draining: None, ..self }
    }
}

impl<P> View for DbHandles<P> {
    type V = DbHandlesView<P>;

    open spec fn view(&self) -> DbHandlesView<P> {
        DbHandlesView {
            primary: self.primary,
            draining: match self.draining {
                Some(retired) => Some((retired.pool, retired.path@)),
                None => None,
            },
            primary_path: self.primary_path@,
        }
    }
}

impl<P> DbHandles<P> {
    /// The handles of a program that has just opened `initial_pool` on
    /// `initial_path`: nothing is draining.
    pub fn new(initial_pool: P, initial_path: String) -> (handles: Self)
        ensures
            handles@ == (DbHandlesView {
                primary: initial_pool,
                draining: None,
                primary_path: initial_path@,
            }),
    {
        DbHandles { primary: initial_pool, draining: None, primary_path: initial_path }
    }

    /// The pool that serves new work.
    pub fn current_pool(&self) -> (pool: &P)
        ensures
            *pool == self@.primary,
    {
        &self.primary
    }

    /// Puts `new_pool` on `new_path` in the place of the pool that serves
    /// new work, and hands out the path that was current before. The pool
    /// that served until now becomes the draining one and stays whole; a
    /// pool that was draining before is no longer kept.
    pub fn swap_primary(&mut self, new_pool: P, new_path: String) -> (old_path: String)
        ensures
            final(self)@ == old(self)@.swap(new_pool, new_path@),
            old_path@ == old(self)@.primary_path,
    {
        let old_path = self.primary_path.clone();
        let mut pool = new_pool;
        let mut path = new_path;
        std::mem::swap(&mut self.primary, &mut pool);
        std::mem::swap(&mut self.primary_path, &mut path);
        self.draining = Some(Retired { pool, path });
        old_path
    }

    /// Empties the draining slot and hands out what was in it, for the
    /// caller to release.
    pub fn clear_draining(&mut self) -> (retired: Option<Retired<P>>)
        ensures
            final(self)@ == old(self)@.cleared(),
            retired == old(self).draining,
    {
        self.draining.take()
    }
}

/// Going to another database and back serves the first one again: after a
/// switch to `b` and a switch back to `a`, the pool in use and the path on
/// record are those of `a`, and what drains is `b`.
pub proof fn lemma_switch_round_trip<P>(
    handles: DbHandlesView<P>,
    b: P,
    b_path: Seq<char>,
    a: P,
    a_path: Seq<char>,
)
    ensures
        handles.swap(b, b_path).swap(a, a_path).primary == a,
        handles.swap(b, b_path).swap(a, a_path).primary_path == a_path,
        handles.swap(b, b_path).swap(a, a_path).draining == Some((b, b_path)),
        handles.swap(b, b_path).swap(a, a_path) == handles.swap(a, a_path).swap(b, b_path).swap(
            a,
            a_path,
        ),
{
}

/// A switch does not touch the pool that served before it: that pool is
/// the one that drains afterwards, with the path it had.
pub proof fn lemma_switch_keeps_retired<P>(handles: DbHandlesView<P>, pool: P, path: Seq<char>)
    ensures
        handles.swap(pool, path).draining == Some((handles.primary, handles.primary_path)),
        handles.swap(pool, path).primary == pool,
{
}

/// What a pool reports of its connections.
#[derive(Debug, Clone, Copy, PartialEq, Eq, Structural)]
pub struct PoolState {
    pub connections: u32,
    pub idle_connections: u32,
}

impl PoolState {
    /// Whether no connection of the pool is in use: all that are open are
    /// idle.
    pub open spec fn spec_is_idle(self) -> bool {
        self.connections == self.idle_connections
    }

    /// Whether no connection of the pool is in use.
    pub fn is_idle(&self) -> (idle: bool)
        ensures
            idle == self.spec_is_idle(),
    {
        self.connections == self.idle_connections
    }
}

/// How far the wait for a retired pool has come.
#[derive(Debug, Clone, Copy, PartialEq, Eq, Structural)]
pub enum Drain {
    /// The pool was seen busy this many times.
    Polling(u32),
    /// The pool was seen idle: its file is to be removed.
    Deleted,
    /// The pool stayed busy too long: its file stays.
    Abandoned,
}

/// What to do after a poll.
#[derive(Debug, Clone, Copy, PartialEq, Eq, Structural)]
pub enum DrainAction {
    /// Empty the draining slot, release the pool and remove its file.
    Delete,
    /// Wait for the interval and poll again.
    Sleep,
    /// Report the timeout and leave the file where it is.
    Abandon,
    /// The drain had ended before: nothing is left to do.
    Nothing,
}

impl Drain {
    /// The wait after `state` was seen.
    pub open spec fn spec_observe(self, state: PoolState) -> Drain {
        match self {
            Drain::Polling(attempts) => if state.spec_is_idle() {
                Drain::Deleted
            } else if attempts >= DRAIN_MAX_ATTEMPTS {
                Drain::Abandoned
            } else {
                Drain::Polling((attempts + 1) as u32)
            },
            Drain::Deleted => Drain::Deleted,
            Drain::Abandoned => Drain::Abandoned,
        }
    }

    /// What is to be done once `state` was seen.
    pub open spec fn spec_action(self, state: PoolState) -> DrainAction {
        match self {
            Drain::Polling(attempts) => if state.spec_is_idle() {
                DrainAction::Delete
            } else if attempts >= DRAIN_MAX_ATTEMPTS {
                DrainAction::Abandon
            } else {
                DrainAction::Sleep
            },
            _ => DrainAction::Nothing,
        }
    }

    /// The wait after the polls `seen`, one after another.
    pub open spec fn spec_run(self, seen: Seq<PoolState>) -> Drain
        decreases seen.len(),
    {
        if seen.len() == 0 {
            self
        } else {
            self.spec_run(seen.drop_last()).spec_observe(seen.last())
        }
    }

    /// The wait for a pool that has just been retired.
    pub fn start() -> (drain: Drain)
        ensures
            drain == Drain::Polling(0),
    {
        Drain::Polling(0)
    }

    /// Takes in one poll of the retired pool and says what to do next. A
    /// pool that is seen idle is done with, and its file is to be removed.
    /// A pool that is seen busy is polled again after the interval, until
    /// it was seen busy more than `DRAIN_MAX_ATTEMPTS` times: then the wait
    /// is given up and the file stays.
    pub fn observe(self, state: PoolState) -> (step: (Drain, DrainAction))
        ensures
            step.0 == self.spec_observe(state),
            step.1 == self.spec_action(state),
            step.1 == DrainAction::Delete <==> self is Polling && state.spec_is_idle(),
    {
        match self {
            Drain::Polling(attempts) => {
                if state.is_idle() {
                    (Drain::Deleted, DrainAction::Delete)
                } else if attempts >= DRAIN_MAX_ATTEMPTS {
                    (Drain::Abandoned, DrainAction::Abandon)
                } else {
                    (Drain::Polling(attempts + 1), DrainAction::Sleep)
                }
            },
            Drain::Deleted => (Drain::Deleted, DrainAction::Nothing),
            Drain::Abandoned => (Drain::Abandoned, DrainAction::Nothing),
        }
    }

    /// Where the wait stands after the polls `seen`, taken in one after
    /// another from the start.
    pub fn run(seen: &Vec<PoolState>) -> (drain: Drain)
        ensures
            drain == Drain::Polling(0).spec_run(seen@),
    {
        let mut drain = Drain::start();
        let mut i: usize = 0;
        while i < seen.len()
            invariant
                i <= seen.len(),
                drain == Drain::Polling(0).spec_run(seen@.take(i as int)),
            decreases seen.len() - i,
        {
            proof {
                assert(seen@.take(i + 1).drop_last() == seen@.take(i as int));
                assert(seen@.take(i + 1).last() == seen@[i as int]);
            }
            let (next, _) = drain.observe(seen[i]);
            drain = next;
            i += 1;
        }
        assert(seen@.take(seen.len() as int) == seen@);
        drain
    }
}

/// The number of polls that a drain makes at most: one more than the number
/// of failed polls it puts up with.
pub open spec fn spec_poll_bound() -> int {
    DRAIN_MAX_ATTEMPTS + 1
}

/// Where a drain stands after the polls `seen`, said without running it.
/// While every poll saw the pool busy, the drain counts them, until there
/// were as many as it makes at most. A poll that saw the pool idle ends it
/// with the removal of the file, if the poll was made in time.
pub proof fn lemma_drain_run(seen: Seq<PoolState>)
    ensures
        ({
            let end = Drain::Polling(0).spec_run(seen);
            let all_busy = forall|k: int|
                0 <= k < seen.len() && k < spec_poll_bound() ==> !(#[trigger] seen[k]).spec_is_idle();
            &&& all_busy && seen.len() < spec_poll_bound() ==> end == Drain::Polling(seen.len() as u32)
            &&& all_busy && seen.len() >= spec_poll_bound() ==> end == Drain::Abandoned
            &&& !all_busy ==> end == Drain::Deleted
        }),
    decreases seen.len(),
{
    if seen.len() > 0 {
        let before = seen.drop_last();
        lemma_drain_run(before);
        let busy_before = forall|k: int|
            0 <= k < before.len() && k < spec_poll_bound() ==> !(#[trigger] before[k]).spec_is_idle();
        let all_busy = forall|k: int|
            0 <= k < seen.len() && k < spec_poll_bound() ==> !(#[trigger] seen[k]).spec_is_idle();
        let last = seen.len() - 1;
        assert forall|k: int| 0 <= k < before.len() implies before[k] == seen[k] by {}
        if busy_before {
            if last < spec_poll_bound() && seen[last].spec_is_idle() {
                assert(!all_busy);
            } else {
                assert forall|k: int| 0 <= k < seen.len() && k < spec_poll_bound() implies !(
                #[trigger] seen[k]).spec_is_idle() by {
                    if k < last {
                        assert(!before[k].spec_is_idle());
                    }
                }
            }
        } else {
            let k = choose|k: int|
                0 <= k < before.len() && k < spec_poll_bound() && (#[trigger] before[k]).spec_is_idle();
            assert(seen[k].spec_is_idle());
        }
    }
}

/// The file of a retired pool is removed if and only if the pool is seen
/// idle within the polls that a drain makes, and it is given up for good if
/// and only if all of these polls saw it busy.
pub proof fn lemma_deleted_iff_drained(seen: Seq<PoolState>)
    ensures
        Drain::Polling(0).spec_run(seen) == Drain::Deleted <==> exists|k: int|
            0 <= k < seen.len() && k < spec_poll_bound() && (#[trigger] seen[k]).spec_is_idle(),
        Drain::Polling(0).spec_run(seen) == Drain::Abandoned <==> seen.len() >= spec_poll_bound()
            && forall|k: int| 0 <= k < spec_poll_bound() ==> !(#[trigger] seen[k]).spec_is_idle(),
{
    lemma_drain_run(seen);
}

/// A pool that is in use keeps its file: a poll that sees the pool busy
/// never asks for the removal of the file, and it ends no drain with the
/// file removed that had not ended so before.
pub proof fn lemma_busy_pool_keeps_file(drain: Drain, state: PoolState)
    requires
        !state.spec_is_idle(),
    ensures
        drain.spec_action(state) != DrainAction::Delete,
        drain.spec_observe(state) == Drain::Deleted ==> drain == Drain::Deleted,
{
}

/// A drain that has ended stays as it ended: what is seen of the pool
/// afterwards changes nothing and asks for nothing.
pub proof fn lemma_drain_ends_once(drain: Drain, seen: Seq<PoolState>)
    requires
        !(drain is Polling),
    ensures
        drain.spec_run(seen) == drain,
        forall|state: PoolState| drain.spec_action(state) == DrainAction::Nothing,
    decreases seen.len(),
{
    if seen.len() > 0 {
        lemma_drain_ends_once(drain, seen.drop_last());
    }
}

/// The key under which the settings file holds the path of the database.
pub open spec fn spec_env_key() -> Seq<char> {
    "DATABASE_URL="@
}

/// `lines` with the first line that begins with the key replaced by
/// `entry`, or with `entry` as a new last line where no line begins with the
/// key.
pub open spec fn spec_put_entry(lines: Seq<Seq<char>>, entry: Seq<char>) -> Seq<Seq<char>>
    decreases lines.len(),
{
    if lines.len() == 0 {
        seq![entry]
    } else if spec_env_key().is_prefix_of(lines[0]) {
        seq![entry] + lines.drop_first()
    } else {
        seq![lines[0]] + spec_put_entry(lines.drop_first(), entry)
    }
}

/// The settings file `contents` with `new_path` as the path of the
/// database: its lines, the entry for the path put among them, joined by
/// line feeds.
pub open spec fn spec_updated_env(contents: Seq<char>, new_path: Seq<char>) -> Seq<char> {
    spec_join(spec_put_entry(spec_lines(contents), spec_env_key() + new_path), "\n"@)
}

/// The text of the settings file once `new_path` is on record as the path
/// of the database. The first line that holds a path is rewritten; where
/// there is none, a line is added. All other lines stay, in their order.
pub fn update_database_url_env(contents: &str, new_path: &str) -> (updated: String)
    ensures
        updated@ == spec_updated_env(contents@, new_path@),
{
    let mut entry = String::from_str("DATABASE_URL=");
    entry.append(new_path);
    let lines = split_lines(contents);
    let ghost all = lines.deep_view();
    let mut written: Vec<String> = Vec::new();
    let mut replaced = false;
    let mut i: usize = 0;
    assert(all.skip(0) =~= all);
    while i < lines.len()
        invariant
            i <= lines.len(),
            all == lines.deep_view(),
            entry@ == spec_env_key() + new_path@,
            written.len() == i,
            !replaced ==> written.deep_view() + spec_put_entry(all.skip(i as int), entry@)
                == spec_put_entry(all, entry@),
            replaced ==> written.deep_view() + all.skip(i as int) == spec_put_entry(all, entry@),
        decreases lines.len() - i,
    {
        let ghost before = written.deep_view();
        let ghost rest = all.skip(i as int);
        proof {
            assert(rest[0] == lines[i as int]@);
            assert(rest.drop_first() =~= all.skip(i + 1));
        }
        if !replaced && starts_with(lines[i].as_str(), "DATABASE_URL=") {
            written.push(entry.clone());
            replaced = true;
            proof {
                assert(written.deep_view() =~= before.push(entry@));
                assert(before + (seq![entry@] + rest.drop_first()) =~= before.push(entry@)
                    + rest.drop_first());
            }
        } else {
            written.push(lines[i].clone());
            proof {
                assert(written.deep_view() =~= before.push(rest[0]));
                if replaced {
                    assert(before + rest =~= before.push(rest[0]) + rest.drop_first());
                } else {
                    assert(before + (seq![rest[0]] + spec_put_entry(rest.drop_first(), entry@))
                        =~= before.push(rest[0]) + spec_put_entry(rest.drop_first(), entry@));
                }
            }
        }
        i += 1;
    }
    proof {
        assert(all.skip(lines.len() as int) =~= Seq::<Seq<char>>::empty());
    }
    if !replaced {
        let ghost before = written.deep_view();
        written.push(entry.clone());
        assert(written.deep_view() =~= before + seq![entry@]);
    } else {
        assert(written.deep_view() + Seq::<Seq<char>>::empty() =~= written.deep_view());
    }
    join(&written, "\n")
}

} // verus!
