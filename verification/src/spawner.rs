use vstd::prelude::*;

use crate::enemy::Enemy;
use crate::enemy::Facing;
use crate::rect::Rect;
use crate::wrld::MAX_COORD;
use crate::wrld::World;

verus! {

/// The configuration shape of one wave phase before validation: a duration
/// in milliseconds and a target count that may still be nonpositive.
#[derive(Debug, Clone, Copy)]
pub struct SpawnSpanSerialized {
    pub time_ms: u32,
    pub count: isize,
}

/// One timed phase of a spawn wave: over `time_ms` milliseconds it releases
/// `count` actors, one every `time_between_spawns_ms` milliseconds.
#[derive(Debug, Clone, Copy)]
pub struct SpawnSpan {
    pub time_ms: u32,
    pub count: usize,
    pub spawned: usize,
    pub timer_ms: u64,
    pub time_between_spawns_ms: u32,
}

impl SpawnSpan {
    /// A span is valid when its duration and target are positive, it has not
    /// spawned past its target, its accumulator is small, and its interval
    /// is the one derived from duration and target.
    pub open spec fn wf(self) -> bool {
        &&& self.time_ms >= 1
        &&& self.count >= 1
        &&& self.spawned <= self.count
        &&& self.timer_ms <= u32::MAX
        &&& self.time_between_spawns_ms == self.time_ms as int / self.count as int
    }

    /// Whether a call of `spawn` with elapsed time `dt_ms` releases an actor.
    pub open spec fn spec_fires(self, dt_ms: u32) -> bool {
        self.spawned < self.count && self.timer_ms + dt_ms >= self.time_between_spawns_ms
    }

    /// The span state after a call of `spawn` with elapsed time `dt_ms`.
    /// A phase already at its target is left untouched — its timer no
    /// longer accumulates, since the scheduler never advances a finished
    /// phase again.
    pub open spec fn spec_after(self, dt_ms: u32) -> SpawnSpan {
        if self.spawned >= self.count {
            self
        } else if self.spec_fires(dt_ms) {
            SpawnSpan { spawned: (self.spawned + 1) as usize, timer_ms: 0, ..self }
        } else {
            SpawnSpan { timer_ms: (self.timer_ms + dt_ms) as u64, ..self }
        }
    }

    pub fn new(time_ms: u32, count: usize) -> (s: SpawnSpan)
        requires
            time_ms >= 1,
            count >= 1,
        ensures
            s == (SpawnSpan {
                time_ms,
                count,
                spawned: 0,
                timer_ms: 0,
                time_between_spawns_ms: (time_ms as int / count as int) as u32,
            }),
            s.wf(),
    {
        SpawnSpan {
            time_ms,
            count,
            spawned: 0,
            timer_ms: 0,
            time_between_spawns_ms: (time_ms as u64 / count as u64) as u32,
        }
    }

    /// Advance the phase by `dt_ms` milliseconds.  Returns
    /// `(should_spawn, is_finished)`: whether one actor is released now, and
    /// whether the phase has reached its target.
    pub fn spawn(&mut self, dt_ms: u32) -> (r: (bool, bool))
        requires
            old(self).wf(),
        ensures
            final(self).wf(),
            *final(self) == old(self).spec_after(dt_ms),
            r.0 == old(self).spec_fires(dt_ms),
            r.1 == (final(self).spawned >= final(self).count),
    {
        if self.spawned >= self.count {
            return (false, true);
        }
        self.timer_ms = self.timer_ms + dt_ms as u64;
        if self.timer_ms >= self.time_between_spawns_ms as u64 {
            self.spawned = self.spawned + 1;
            self.timer_ms = 0;
            return (true, self.spawned >= self.count);
        }
        (false, self.spawned >= self.count)
    }

    /// The phase's release rate, in thousandths of a spawn per second.
    pub fn get_spawn_rate(&self) -> (r: u64)
        requires
            self.wf(),
            self.count * 1_000_000 <= u64::MAX,
        ensures
            r == self.count * 1_000_000 / self.time_ms as int,
    {
        self.count as u64 * 1_000_000 / self.time_ms as u64
    }
}

/// The sum of the targets of a sequence of phases.
pub open spec fn sum_counts(s: Seq<SpawnSpan>) -> int
    decreases s.len(),
{
    if s.len() == 0 {
        0
    } else {
        sum_counts(s.drop_last()) + s.last().count
    }
}

/// The sum of the actors already released by a sequence of phases.
pub open spec fn sum_spawned(s: Seq<SpawnSpan>) -> int
    decreases s.len(),
{
    if s.len() == 0 {
        0
    } else {
        sum_spawned(s.drop_last()) + s.last().spawned
    }
}

/// A prefix of a sequence of phases never has a larger target sum than the
/// whole sequence.
proof fn lemma_sum_counts_prefix(s: Seq<SpawnSpan>, n: int)
    requires
        0 <= n <= s.len(),
    ensures
        sum_counts(s.take(n)) <= sum_counts(s),
    decreases s.len(),
{
    if n == s.len() {
        assert(s.take(n) =~= s);
    } else {
        assert(s.drop_last().take(n) =~= s.take(n));
        lemma_sum_counts_prefix(s.drop_last(), n);
    }
}

/// With every phase spawned no further than its target, the released sum is
/// bounded by the target sum.
proof fn lemma_sum_spawned_le_counts(s: Seq<SpawnSpan>)
    requires
        forall|i: int| 0 <= i < s.len() ==> (#[trigger] s[i]).spawned <= s[i].count,
    ensures
        sum_spawned(s) <= sum_counts(s),
    decreases s.len(),
{
    if s.len() > 0 {
        lemma_sum_spawned_le_counts(s.drop_last());
    }
}

/// Phases that have released nothing sum to zero.
proof fn lemma_sum_spawned_zero(s: Seq<SpawnSpan>)
    requires
        forall|i: int| 0 <= i < s.len() ==> (#[trigger] s[i]).spawned == 0,
    ensures
        sum_spawned(s) == 0,
    decreases s.len(),
{
    if s.len() > 0 {
        lemma_sum_spawned_zero(s.drop_last());
    }
}

/// Replacing one phase by another with the same target leaves the target sum
/// unchanged.
proof fn lemma_sum_counts_update(s: Seq<SpawnSpan>, i: int, v: SpawnSpan)
    requires
        0 <= i < s.len(),
        v.count == s[i].count,
    ensures
        sum_counts(s.update(i, v)) == sum_counts(s),
    decreases s.len(),
{
    if i == s.len() - 1 {
        assert(s.update(i, v).drop_last() =~= s.drop_last());
    } else {
        assert(s.update(i, v).drop_last() =~= s.drop_last().update(i, v));
        lemma_sum_counts_update(s.drop_last(), i, v);
    }
}

/// Replacing one phase shifts the released sum by the difference at that
/// phase.
proof fn lemma_sum_spawned_update(s: Seq<SpawnSpan>, i: int, v: SpawnSpan)
    requires
        0 <= i < s.len(),
    ensures
        sum_spawned(s.update(i, v)) == sum_spawned(s) + v.spawned - s[i].spawned,
    decreases s.len(),
{
    if i == s.len() - 1 {
        assert(s.update(i, v).drop_last() =~= s.drop_last());
    } else {
        assert(s.update(i, v).drop_last() =~= s.drop_last().update(i, v));
        lemma_sum_spawned_update(s.drop_last(), i, v);
    }
}

/// The whole wave scheduler: an ordered sequence of phases, the index of the
/// phase currently running, and cumulative release counters.
pub struct Spawner {
    pub spans: Vec<SpawnSpan>,
    pub current_span_index: usize,
    pub spawned: usize,
    pub total_to_spawn: usize,
}

impl Spawner {
    /// The scheduler is valid when every phase is, the running index never
    /// passes the end, the total is the sum of the targets, the released
    /// counter is the sum of what the phases released, and every phase the
    /// index has passed reached its target.
    pub open spec fn wf(self) -> bool {
        &&& forall|i: int| 0 <= i < self.spans@.len() ==> (#[trigger] self.spans@[i]).wf()
        &&& self.current_span_index <= self.spans@.len()
        &&& self.total_to_spawn == sum_counts(self.spans@)
        &&& self.spawned == sum_spawned(self.spans@)
        &&& forall|i: int|
            0 <= i < self.current_span_index ==> (#[trigger] self.spans@[i]).spawned
                == self.spans@[i].count
    }

    pub fn new(spans: Vec<SpawnSpan>) -> (s: Spawner)
        requires
            forall|i: int|
                0 <= i < spans@.len() ==> (#[trigger] spans@[i]).wf() && spans@[i].spawned == 0,
            sum_counts(spans@) <= usize::MAX,
        ensures
            s.spans@ == spans@,
            s.current_span_index == 0,
            s.spawned == 0,
            s.total_to_spawn == sum_counts(spans@),
            s.wf(),
    {
        let mut total: usize = 0;
        let mut i: usize = 0;
        while i < spans.len()
            invariant
                i <= spans@.len(),
                total == sum_counts(spans@.take(i as int)),
                sum_counts(spans@) <= usize::MAX,
            decreases spans@.len() - i,
        {
            proof {
                assert(spans@.take(i + 1).drop_last() =~= spans@.take(i as int));
                assert(spans@.take(i + 1).last() == spans@[i as int]);
                lemma_sum_counts_prefix(spans@, i + 1);
            }
            total = total + spans[i].count;
            i = i + 1;
        }
        proof {
            assert(spans@.take(spans@.len() as int) =~= spans@);
            lemma_sum_spawned_zero(spans@);
        }
        Spawner { total_to_spawn: total, spans, current_span_index: 0, spawned: 0 }
    }

    /// Whether one `check_spawn` step of `dt_ms` releases an actor: the
    /// scheduler is not terminal and its running phase fires.
    pub open spec fn spec_check_fires(self, dt_ms: u32) -> bool {
        self.current_span_index < self.spans@.len() && self.spans@[
            self.current_span_index as int
        ].spec_fires(dt_ms)
    }

    /// Advance the scheduler by `dt_ms` milliseconds; report whether one
    /// actor should be materialized now.  Once every phase is exhausted the
    /// scheduler is terminal and always reports `false`.
    pub fn check_spawn(&mut self, dt_ms: u32) -> (should_spawn: bool)
        requires
            old(self).wf(),
        ensures
            final(self).wf(),
            should_spawn == old(self).spec_check_fires(dt_ms),
            old(self).current_span_index >= old(self).spans@.len() ==> !should_spawn && *final(self)
                == *old(self),
            old(self).current_span_index < old(self).spans@.len() ==> {
                let idx = old(self).current_span_index as int;
                let before = old(self).spans@[idx];
                &&& should_spawn == before.spec_fires(dt_ms)
                &&& final(self).spans@ == old(self).spans@.update(idx, before.spec_after(dt_ms))
                &&& final(self).current_span_index == if before.spec_after(dt_ms).spawned
                    >= before.count {
                    idx + 1
                } else {
                    idx
                }
                &&& final(self).spawned == old(self).spawned + if should_spawn {
                    1int
                } else {
                    0int
                }
                &&& final(self).total_to_spawn == old(self).total_to_spawn
            },
    {
        if self.current_span_index >= self.spans.len() {
            return false;
        }
        let idx = self.current_span_index;
        let mut span = self.spans[idx];
        let (should_spawn, is_finished) = span.spawn(dt_ms);
        proof {
            lemma_sum_counts_update(self.spans@, idx as int, span);
            lemma_sum_spawned_update(self.spans@, idx as int, span);
            lemma_sum_spawned_le_counts(self.spans@.update(idx as int, span));
        }
        self.spans.set(idx, span);
        if is_finished {
            self.current_span_index = idx + 1;
        }
        if should_spawn {
            self.spawned = self.spawned + 1;
        }
        should_spawn
    }

    pub fn get_total_to_spawn(&self) -> (r: &usize)
        ensures
            *r == self.total_to_spawn,
    {
        &self.total_to_spawn
    }

    pub fn get_spawned_count(&self) -> (r: &usize)
        ensures
            *r == self.spawned,
    {
        &self.spawned
    }

    /// The release rate of the running phase, in thousandths of a spawn per
    /// second, or zero once the scheduler is terminal.  A valid phase slower
    /// than one spawn per thousand seconds also truncates to zero.
    pub fn get_spawns_per_second(&self) -> (r: u64)
        requires
            self.wf(),
            forall|i: int|
                0 <= i < self.spans@.len() ==> (#[trigger] self.spans@[i]).count * 1_000_000
                    <= u64::MAX,
        ensures
            self.current_span_index < self.spans@.len() ==> {
                let cur = self.spans@[self.current_span_index as int];
                r == cur.count * 1_000_000 / cur.time_ms as int
            },
            self.current_span_index >= self.spans@.len() ==> r == 0,
    {
        if self.current_span_index < self.spans.len() {
            return self.spans[self.current_span_index].get_spawn_rate();
        }
        0
    }
}

/// Relies on rand's `RngExt::random_range` over `0..n`: the range is not
/// empty, so the drawn value is always below `n`.
#[verifier::external_body]
fn random_below(n: usize) -> (r: usize)
    requires
        n > 0,
    ensures
        r < n,
{
    rand::RngExt::random_range(&mut rand::rng(), 0..n)
}

/// Materialize one actor at the given spawn position: the deterministic
/// core of `spawn`, usable with any choice of position.
pub fn spawn_at(pos: (usize, usize)) -> (e: Enemy)
    requires
        pos.0 <= MAX_COORD,
        pos.1 <= MAX_COORD,
    ensures
        e.wf(),
        e.pos == pos,
        e.hitbox == (Rect { left: 3, top: 12, right: 27, bottom: 32 }),
        e.draw_pos == (Rect { left: 3, top: 12, right: 27, bottom: 32 }),
        e.facing == Facing::Left,
{
    Enemy::new(pos, Rect::new(3, 12, 27, 32), Rect::new(3, 12, 27, 32))
}

/// Materialize one actor at a spawn position chosen by chance among the
/// level's spawn holes.
pub fn spawn(wrld: &World) -> (e: Enemy)
    requires
        wrld.wf(),
    ensures
        e.wf(),
        exists|i: int| 0 <= i < wrld.spawns@.len() && e.pos == #[trigger] wrld.spawns@[i],
        e.hitbox == (Rect { left: 3, top: 12, right: 27, bottom: 32 }),
        e.facing == Facing::Left,
{
    let spawns = wrld.get_spawns();
    let idx = random_below(spawns.len());
    let pos = spawns[idx];
    spawn_at(pos)
}

} // verus!
