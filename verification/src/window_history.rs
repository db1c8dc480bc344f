//! What a window's buckets say about the recordings that went into it.
//!
//! Recordings are counted in buckets from the bucket the window began in.
//! Each recording lies as many buckets after the one before as whole buckets
//! passed between the two, so the bucket numbers never go down. The laws in
//! this file say that the ring holds, for each of the last `count` buckets,
//! the value last recorded in it, and nothing of any bucket before those.

use crate::duration::{elapsed_buckets, Duration};
use crate::window::{seq_sum, WindowState};
use vstd::arithmetic::div_mod::lemma_fundamental_div_mod_converse;
use vstd::prelude::*;

verus! {

/// `history` moved back by `moved` buckets, with `value` in front: the value
/// is the newest entry, the buckets passed over in between are empty, and
/// what falls off the end is gone.
pub open spec fn shifted(history: Seq<u64>, moved: nat, value: u64) -> Seq<u64> {
    Seq::new(
        history.len(),
        |age: int|
            if age == 0 {
                value
            } else if age < moved {
                0u64
            } else {
                history[age - moved]
            },
    )
}

/// The window after the recordings `adds`, each a time and a value, were
/// made in order on a fresh window that began at `start`.
pub open spec fn replay(duration: Duration, start: i64, adds: Seq<(i64, u64)>) -> WindowState
    decreases adds.len(),
{
    if adds.len() == 0 {
        WindowState::fresh(duration, start)
    } else {
        replay(duration, start, adds.drop_last()).add(adds.last().0, adds.last().1)
    }
}

/// The time of the last of `adds`, or the time the window began at where
/// there is none.
pub open spec fn last_time(start: i64, adds: Seq<(i64, u64)>) -> i64 {
    if adds.len() == 0 {
        start
    } else {
        adds.last().0
    }
}

/// The bucket that the last of `adds` fell in, counted from the bucket the
/// window began in: each recording lies as many buckets after the one
/// before as whole buckets passed between their times.
pub open spec fn current_bucket(duration: Duration, start: i64, adds: Seq<(i64, u64)>) -> nat
    decreases adds.len(),
{
    if adds.len() == 0 {
        0
    } else {
        current_bucket(duration, start, adds.drop_last()) + elapsed_buckets(
            duration,
            last_time(start, adds.drop_last()),
            adds.last().0,
        )
    }
}

/// The value of the last of `adds` that fell in `bucket`; zero where none
/// did.
pub open spec fn recorded(
    duration: Duration,
    start: i64,
    adds: Seq<(i64, u64)>,
    bucket: int,
) -> u64
    decreases adds.len(),
{
    if adds.len() == 0 {
        0
    } else if current_bucket(duration, start, adds) == bucket {
        adds.last().1
    } else {
        recorded(duration, start, adds.drop_last(), bucket)
    }
}

/// The sum of `recorded` over the `count` buckets that end with `newest`.
pub open spec fn recorded_sum(
    duration: Duration,
    start: i64,
    adds: Seq<(i64, u64)>,
    newest: int,
    count: nat,
) -> nat
    decreases count,
{
    if count == 0 {
        0
    } else {
        recorded_sum(duration, start, adds, newest, (count - 1) as nat) + recorded(
            duration,
            start,
            adds,
            newest - (count - 1),
        ) as nat
    }
}

proof fn lemma_sum_concat(a: Seq<u64>, b: Seq<u64>)
    ensures
        seq_sum(a + b) == seq_sum(a) + seq_sum(b),
    decreases b.len(),
{
    if b.len() == 0 {
        assert(a + b =~= a);
    } else {
        assert((a + b).drop_last() =~= a + b.drop_last());
        lemma_sum_concat(a, b.drop_last());
    }
}

proof fn lemma_sum_reverse(a: Seq<u64>)
    ensures
        seq_sum(a.reverse()) == seq_sum(a),
    decreases a.len(),
{
    if a.len() == 0 {
        assert(a.reverse() =~= a);
    } else {
        let head = seq![a.last()];
        assert(a.reverse() =~= head + a.drop_last().reverse());
        lemma_sum_concat(head, a.drop_last().reverse());
        lemma_sum_reverse(a.drop_last());
        assert(seq_sum(head.drop_last()) == 0);
    }
}

/// Only the first entry counts where all the others are zero.
proof fn lemma_sum_of_single(s: Seq<u64>)
    requires
        s.len() >= 1,
        forall|i: int| 1 <= i < s.len() ==> s[i] == 0,
    ensures
        seq_sum(s) == s[0] as nat,
    decreases s.len(),
{
    if s.len() > 1 {
        lemma_sum_of_single(s.drop_last());
    } else {
        assert(seq_sum(s.drop_last()) == 0);
    }
}

/// Replacing one entry changes the sum by the difference of the two values.
proof fn lemma_sum_update(s: Seq<u64>, i: int, value: u64)
    requires
        0 <= i < s.len(),
    ensures
        seq_sum(s.update(i, value)) + s[i] == seq_sum(s) + value,
    decreases s.len(),
{
    if i == s.len() - 1 {
        assert(s.update(i, value).drop_last() =~= s.drop_last());
    } else {
        assert(s.update(i, value).drop_last() =~= s.drop_last().update(i, value));
        lemma_sum_update(s.drop_last(), i, value);
    }
}

/// The buckets add up to the same total by age as by slot.
pub proof fn lemma_trailing_total(w: WindowState)
    requires
        w.wf(),
    ensures
        seq_sum(w.trailing()) == w.total(),
{
    let count = w.buckets.len() as int;
    let upto = w.buckets.subrange(0, w.start_index + 1);
    let after = w.buckets.subrange(w.start_index + 1, count);
    assert(w.buckets =~= upto + after);
    assert(w.trailing() =~= upto.reverse() + after.reverse());
    lemma_sum_concat(upto, after);
    lemma_sum_concat(upto.reverse(), after.reverse());
    lemma_sum_reverse(upto);
    lemma_sum_reverse(after);
}

/// Recording moves the history back by the buckets elapsed since the last
/// recording and puts the value in front, whichever slots of the ring that
/// takes: every value that would then be `count` buckets old or older is
/// gone, every bucket passed over is empty, and a value recorded in the
/// bucket that is still current is replaced.
pub proof fn lemma_add_shifts_history(w: WindowState, time: i64, value: u64)
    requires
        w.wf(),
    ensures
        w.add(time, value).wf(),
        w.add(time, value).duration == w.duration,
        w.add(time, value).last_value_time == time,
        w.add(time, value).trailing() == shifted(
            w.trailing(),
            elapsed_buckets(w.duration, w.last_value_time, time),
            value,
        ),
{
    let count = w.buckets.len() as int;
    let moved = elapsed_buckets(w.duration, w.last_value_time, time) as int;
    let next = w.add(time, value);
    if moved <= count {
        let stop = (w.start_index + moved) % count;
        if w.start_index + moved < count {
            lemma_fundamental_div_mod_converse(
                w.start_index + moved,
                count,
                0,
                w.start_index + moved,
            );
        } else {
            lemma_fundamental_div_mod_converse(
                w.start_index + moved,
                count,
                1,
                w.start_index + moved - count,
            );
        }
        assert(next.start_index == stop);
    }
    assert(next.trailing() =~= shifted(w.trailing(), moved as nat, value));
}

/// No recording lies in a bucket after the current one.
proof fn lemma_nothing_ahead(duration: Duration, start: i64, adds: Seq<(i64, u64)>, bucket: int)
    requires
        bucket > current_bucket(duration, start, adds),
    ensures
        recorded(duration, start, adds, bucket) == 0,
    decreases adds.len(),
{
    if adds.len() > 0 {
        lemma_nothing_ahead(duration, start, adds.drop_last(), bucket);
    }
}

/// By age, the window holds what was last recorded in each of its buckets.
proof fn lemma_replay_by_age(duration: Duration, start: i64, adds: Seq<(i64, u64)>)
    requires
        duration.spec_get() >= 1,
    ensures
        replay(duration, start, adds).wf(),
        replay(duration, start, adds).duration == duration,
        replay(duration, start, adds).last_value_time == last_time(start, adds),
        forall|age: int|
            0 <= age < duration.spec_get() ==> #[trigger] replay(
                duration,
                start,
                adds,
            ).trailing()[age] == recorded(
                duration,
                start,
                adds,
                current_bucket(duration, start, adds) - age,
            ),
    decreases adds.len(),
{
    let count = duration.spec_get() as int;
    let w = replay(duration, start, adds);
    if adds.len() == 0 {
    } else {
        let before = adds.drop_last();
        let prev = replay(duration, start, before);
        let moved = elapsed_buckets(duration, prev.last_value_time, adds.last().0);
        let newest = current_bucket(duration, start, adds) as int;
        lemma_replay_by_age(duration, start, before);
        lemma_add_shifts_history(prev, adds.last().0, adds.last().1);
        assert forall|age: int| 0 <= age < count implies #[trigger] w.trailing()[age] == recorded(
            duration,
            start,
            adds,
            newest - age,
        ) by {
            if age == 0 {
            } else if age < moved {
                lemma_nothing_ahead(duration, start, before, newest - age);
            } else {
                assert(prev.trailing()[age - moved] == recorded(
                    duration,
                    start,
                    before,
                    current_bucket(duration, start, before) - (age - moved),
                ));
            }
        }
    }
}

proof fn lemma_sum_by_age(
    duration: Duration,
    start: i64,
    adds: Seq<(i64, u64)>,
    history: Seq<u64>,
    newest: int,
    upto: nat,
)
    requires
        upto <= history.len(),
        forall|age: int|
            0 <= age < history.len() ==> #[trigger] history[age] == recorded(
                duration,
                start,
                adds,
                newest - age,
            ),
    ensures
        seq_sum(history.take(upto as int)) == recorded_sum(duration, start, adds, newest, upto),
    decreases upto,
{
    if upto > 0 {
        lemma_sum_by_age(duration, start, adds, history, newest, (upto - 1) as nat);
        assert(history.take(upto as int).drop_last() =~= history.take(upto - 1));
        assert(history.take(upto as int).last() == history[upto - 1]);
    }
}

/// Rolling sum bound: after any recordings on a fresh window, each bucket of
/// the ring holds the value last recorded in the bucket it stands for, the
/// buckets add up to the sum of those values over the last `count` buckets
/// (`count` the size of the ring), and the rolling sum is that sum, held to
/// `u64::MAX`. No recording that lies `count` buckets back or further has a
/// part in it.
pub proof fn lemma_rolling_sum_bound(duration: Duration, start: i64, adds: Seq<(i64, u64)>)
    requires
        duration.spec_get() >= 1,
    ensures
        replay(duration, start, adds).wf(),
        forall|age: int|
            0 <= age < duration.spec_get() ==> #[trigger] replay(
                duration,
                start,
                adds,
            ).trailing()[age] == recorded(
                duration,
                start,
                adds,
                current_bucket(duration, start, adds) - age,
            ),
        replay(duration, start, adds).total() == recorded_sum(
            duration,
            start,
            adds,
            current_bucket(duration, start, adds) as int,
            duration.spec_get() as nat,
        ),
        replay(duration, start, adds).rolling_sum() <= recorded_sum(
            duration,
            start,
            adds,
            current_bucket(duration, start, adds) as int,
            duration.spec_get() as nat,
        ),
{
    let w = replay(duration, start, adds);
    lemma_replay_by_age(duration, start, adds);
    lemma_trailing_total(w);
    lemma_sum_by_age(
        duration,
        start,
        adds,
        w.trailing(),
        current_bucket(duration, start, adds) as int,
        duration.spec_get() as nat,
    );
    assert(w.trailing().take(duration.spec_get() as int) =~= w.trailing());
}

/// Stale reset: a recording made a whole ring or more after the one before
/// leaves nothing but its own value in the window.
pub proof fn lemma_stale_reset(w: WindowState, t0: i64, v: u64, t1: i64, v2: u64)
    requires
        w.wf(),
        t1 - t0 >= w.duration.spec_get() * w.duration.spec_seconds_per_bucket(),
    ensures
        w.add(t0, v).add(t1, v2).total() == v2,
        w.add(t0, v).add(t1, v2).rolling_sum() == v2,
{
    let first = w.add(t0, v);
    let second = first.add(t1, v2);
    let count = w.duration.spec_get() as int;
    let width = w.duration.spec_seconds_per_bucket() as int;
    lemma_add_shifts_history(w, t0, v);
    lemma_add_shifts_history(first, t1, v2);
    let moved = elapsed_buckets(first.duration, first.last_value_time, t1) as int;
    assert(moved >= count) by (nonlinear_arith)
        requires
            moved == (t1 - t0) / width,
            t1 - t0 >= count * width,
            width >= 1,
            count >= 1,
    ;
    lemma_trailing_total(second);
    lemma_sum_of_single(second.trailing());
}

/// Same bucket: a recording made less than one bucket after the one before,
/// or at an earlier time, lands in the same slot and takes the place of the
/// value recorded there. Nothing else in the window changes.
pub proof fn lemma_same_bucket_replaces(w: WindowState, t1: i64, a: u64, t2: i64, b: u64)
    requires
        w.wf(),
        t2 - t1 < w.duration.spec_seconds_per_bucket(),
    ensures
        w.add(t1, a).add(t2, b).start_index == w.add(t1, a).start_index,
        w.add(t1, a).buckets[w.add(t1, a).start_index as int] == a,
        w.add(t1, a).add(t2, b).buckets == w.add(t1, a).buckets.update(
            w.add(t1, a).start_index as int,
            b,
        ),
        w.add(t1, a).add(t2, b).total() + a == w.add(t1, a).total() + b,
{
    let first = w.add(t1, a);
    let second = first.add(t2, b);
    let count = w.duration.spec_get() as int;
    let width = w.duration.spec_seconds_per_bucket() as int;
    lemma_add_shifts_history(w, t1, a);
    if t2 >= t1 {
        lemma_fundamental_div_mod_converse(t2 - t1, width, 0, t2 - t1);
    }
    let slot = first.start_index as int;
    lemma_fundamental_div_mod_converse(slot, count, 0, slot);
    assert(first.trailing()[0] == a);
    assert(second.buckets =~= first.buckets.update(first.start_index as int, b));
    lemma_sum_update(first.buckets, first.start_index as int, b);
}

} // verus!
