//! The drain barrier: waiting until every superseded streaming session has
//! stopped firing the user callback.
//!
//! Each retired session leaves a flag that flips once its consumer thread
//! has finished. The binding layer samples the flags and the clock; these
//! functions decide when the wait is over and which flags stay tracked.

use vstd::prelude::*;

verus! {

/// Whether every sampled flag reads drained.
pub open spec fn spec_all_drained(flags: Seq<bool>) -> bool {
    forall|i: int| 0 <= i < flags.len() ==> #[trigger] flags[i]
}

/// Whether every flag in a sample reads drained.
pub fn all_drained(flags: &Vec<bool>) -> (r: bool)
    ensures
        r == spec_all_drained(flags@),
{
    let mut i: usize = 0;
    while i < flags.len()
        invariant
            i <= flags@.len(),
            forall|j: int| 0 <= j < i ==> #[trigger] flags@[j],
        decreases flags@.len() - i,
    {
        if !flags[i] {
            return false;
        }
        i = i + 1;
    }
    true
}

/// One step of the polling wait.
#[derive(Clone, Copy, Debug, PartialEq, Eq, Structural)]
pub enum DrainStep {
    /// Every flag drained: the barrier holds.
    Drained,
    /// The deadline passed first: give up.
    TimedOut,
    /// Sleep briefly and sample again.
    KeepWaiting,
}

/// Decide a polling step from a sample of the flags and whether the deadline
/// has passed (a wait whose deadline overflowed never passes it). Drained
/// wins over a deadline reached in the same sample.
pub fn drain_step(flags: &Vec<bool>, deadline_passed: bool) -> (step: DrainStep)
    ensures
        spec_all_drained(flags@) ==> step == DrainStep::Drained,
        !spec_all_drained(flags@) && deadline_passed ==> step == DrainStep::TimedOut,
        !spec_all_drained(flags@) && !deadline_passed ==> step == DrainStep::KeepWaiting,
{
    if all_drained(flags) {
        DrainStep::Drained
    } else if deadline_passed {
        DrainStep::TimedOut
    } else {
        DrainStep::KeepWaiting
    }
}

/// The elements of `items` whose flag is still false, in order.
pub open spec fn spec_undrained<T>(items: Seq<T>, drained: Seq<bool>) -> Seq<T>
    decreases items.len(),
{
    if items.len() == 0 {
        Seq::empty()
    } else {
        let rest = spec_undrained(items.drop_last(), drained.subrange(0, drained.len() - 1));
        if drained.last() {
            rest
        } else {
            rest.push(items.last())
        }
    }
}

/// Keep only the tracked sessions whose flag has not drained yet (the
/// bookkeeping pass after a successful wait, so a long-lived handle does not
/// accumulate finished generations).
pub fn keep_undrained<T>(items: Vec<T>, drained: &Vec<bool>) -> (out: Vec<T>)
    requires
        items@.len() == drained@.len(),
    ensures
        out@ == spec_undrained(items@, drained@),
{
    let ghost all = items@;
    let mut items = items;
    let mut rev: Vec<T> = Vec::new();
    let mut n: usize = items.len();
    proof {
        assert(all.subrange(0, n as int) =~= all);
        assert(drained@.subrange(0, n as int) =~= drained@);
        assert(reverse_of(rev@) =~= Seq::<T>::empty());
    }
    // Walk from the back so each element can be moved out with `pop`.
    while n > 0
        invariant
            n <= all.len(),
            all.len() == drained@.len(),
            items@ == all.subrange(0, n as int),
            spec_undrained(all, drained@) == spec_undrained(all.subrange(0, n as int), drained@.subrange(0, n as int))
                + reverse_of(rev@),
        decreases n,
    {
        let item = items.pop().unwrap();
        n = n - 1;
        let ghost before = rev@;
        if !drained[n] {
            rev.push(item);
        }
        proof {
            let pre = all.subrange(0, n + 1);
            let pre_d = drained@.subrange(0, n + 1);
            assert(pre.drop_last() =~= all.subrange(0, n as int));
            assert(pre_d.subrange(0, pre_d.len() - 1) =~= drained@.subrange(0, n as int));
            assert(pre.last() == all[n as int]);
            assert(pre_d.last() == drained@[n as int]);
            if !drained@[n as int] {
                assert(reverse_of(rev@) =~= seq![all[n as int]] + reverse_of(before)) by {
                    lemma_reverse_push(before, all[n as int]);
                }
                assert(spec_undrained(all.subrange(0, n as int), drained@.subrange(0, n as int))
                    + reverse_of(rev@) =~= spec_undrained(all.subrange(0, n as int), drained@.subrange(0, n as int)).push(all[n as int])
                    + reverse_of(before));
            }
        }
    }
    proof {
        assert(all.subrange(0, 0) =~= Seq::<T>::empty());
        assert(spec_undrained(Seq::<T>::empty(), drained@.subrange(0, 0)) =~= Seq::<T>::empty());
    }
    let mut out: Vec<T> = Vec::new();
    let ghost target = reverse_of(rev@);
    while rev.len() > 0
        invariant
            target == out@ + reverse_of(rev@),
        decreases rev@.len(),
    {
        let ghost before = rev@;
        let item = rev.pop().unwrap();
        proof {
            assert(before =~= rev@.push(item));
            lemma_reverse_push(rev@, item);
        }
        out.push(item);
        proof {
            assert(target =~= out@ + reverse_of(rev@));
        }
    }
    proof {
        assert(reverse_of(rev@) =~= Seq::<T>::empty());
        assert(out@ =~= target);
    }
    out
}

/// A sequence in reverse order.
pub open spec fn reverse_of<T>(s: Seq<T>) -> Seq<T>
    decreases s.len(),
{
    if s.len() == 0 {
        Seq::empty()
    } else {
        seq![s.last()] + reverse_of(s.drop_last())
    }
}

/// Reversing after a push puts the pushed element first.
proof fn lemma_reverse_push<T>(s: Seq<T>, x: T)
    ensures
        reverse_of(s.push(x)) == seq![x] + reverse_of(s),
{
    assert(s.push(x).drop_last() =~= s);
}

/// The answer the standalone handle's drain wait returns: `1` once every
/// session superseded on the handle has drained, `0` on timeout or when no
/// session was ever superseded on it. `pending_empty` says whether the
/// handle still tracks an undrained session (drained ones are pruned after
/// a successful wait) and `drained` whether the wait on the tracked ones
/// succeeded.
pub open spec fn spec_await_drain_answer(ever_superseded: bool, pending_empty: bool, drained: bool) -> i32 {
    if !ever_superseded {
        0
    } else if pending_empty || drained {
        1
    } else {
        0
    }
}

/// Decide the drain wait's answer (see [`spec_await_drain_answer`]).
pub fn await_drain_answer(ever_superseded: bool, pending_empty: bool, drained: bool) -> (r: i32)
    ensures
        r == spec_await_drain_answer(ever_superseded, pending_empty, drained),
{
    if !ever_superseded {
        0
    } else if pending_empty || drained {
        1
    } else {
        0
    }
}

/// Abstract content of a handle's superseded-session book.
pub struct SupersededView<T> {
    /// The drain flags of superseded sessions still tracked, oldest first.
    pub pending: Seq<T>,
    /// Whether any session was ever superseded on the handle.
    pub ever_superseded: bool,
}

/// The book after a successful wait prunes the sessions whose sampled flag
/// reads drained.
pub open spec fn spec_pruned<T>(b: SupersededView<T>, sample: Seq<bool>) -> SupersededView<T> {
    SupersededView { pending: spec_undrained(b.pending, sample), ever_superseded: b.ever_superseded }
}

/// The sessions a handle has superseded (by reconnect or shutdown) and
/// still tracks, with whether it ever superseded one. `T` is the binding
/// layer's drain flag.
pub struct SupersededSessions<T> {
    pending: Vec<T>,
    ever_superseded: bool,
}

impl<T> View for SupersededSessions<T> {
    type V = SupersededView<T>;

    closed spec fn view(&self) -> SupersededView<T> {
        SupersededView { pending: self.pending@, ever_superseded: self.ever_superseded }
    }
}

impl<T> SupersededSessions<T> {
    /// A handle that has superseded nothing yet.
    pub fn new() -> (b: SupersededSessions<T>)
        ensures
            b@.pending == Seq::<T>::empty(),
            !b@.ever_superseded,
    {
        SupersededSessions { pending: Vec::new(), ever_superseded: false }
    }

    /// Track the drain flag of a session just superseded.
    pub fn retire(&mut self, flag: T)
        ensures
            final(self)@.pending == old(self)@.pending.push(flag),
            final(self)@.ever_superseded,
    {
        self.pending.push(flag);
        self.ever_superseded = true;
    }

    /// The tracked drain flags, oldest first.
    pub fn pending(&self) -> (r: &Vec<T>)
        ensures
            r@ == self@.pending,
    {
        &self.pending
    }

    /// Whether any session was ever superseded on the handle.
    pub fn ever_superseded(&self) -> (r: bool)
        ensures
            r == self@.ever_superseded,
    {
        self.ever_superseded
    }

    /// After a successful wait, stop tracking the sessions whose sampled
    /// flag reads drained (one sample per tracked flag, in order).
    pub fn prune(&mut self, sample: &Vec<bool>)
        requires
            sample@.len() == old(self)@.pending.len(),
        ensures
            final(self)@ == spec_pruned(old(self)@, sample@),
    {
        let mut items: Vec<T> = Vec::new();
        std::mem::swap(&mut items, &mut self.pending);
        self.pending = keep_undrained(items, sample);
    }
}

/// A sample in which every flag reads drained leaves nothing undrained.
proof fn lemma_all_drained_leaves_none<T>(items: Seq<T>, sample: Seq<bool>)
    requires
        items.len() == sample.len(),
        spec_all_drained(sample),
    ensures
        spec_undrained(items, sample).len() == 0,
    decreases items.len(),
{
    if items.len() > 0 {
        let rest = sample.subrange(0, sample.len() - 1);
        assert(spec_all_drained(rest)) by {
            assert forall|i: int| 0 <= i < rest.len() implies #[trigger] rest[i] by {
                assert(rest[i] == sample[i]);
            }
        }
        assert(sample.last() == sample[sample.len() - 1]);
        lemma_all_drained_leaves_none(items.drop_last(), rest);
    }
}

/// The barrier stays passed: on a handle that superseded a session, once a
/// wait has found every tracked flag drained and pruned them, a later wait
/// with no session superseded since answers `1` (whatever its own sample
/// shows), and a handle that never superseded a session answers `0`.
pub proof fn lemma_drain_barrier_stays_passed<T>(b: SupersededView<T>, sample: Seq<bool>, later_drained: bool)
    requires
        sample.len() == b.pending.len(),
    ensures
        (b.ever_superseded && spec_all_drained(sample)) ==> spec_await_drain_answer(
            spec_pruned(b, sample).ever_superseded,
            spec_pruned(b, sample).pending.len() == 0,
            later_drained,
        ) == 1,
        !b.ever_superseded ==> spec_await_drain_answer(b.ever_superseded, b.pending.len() == 0, later_drained) == 0,
{
    if spec_all_drained(sample) {
        lemma_all_drained_leaves_none(b.pending, sample);
    }
}

/// Whether releasing a handle should report an overrun of its drain budget:
/// only when some session was actually pending and did not drain in time.
pub fn free_overrun_report(had_pending: bool, drained: bool) -> (r: bool)
    ensures
        r == (had_pending && !drained),
{
    had_pending && !drained
}

} // verus!
