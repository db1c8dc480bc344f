//! The circular time window behind the rolling-sum rules.
//!
//! A window keeps one value per bucket of its duration in a ring. The slot at
//! `start_index` stands for the current bucket; the slot one step behind it
//! stands for the bucket before, and so on round the ring. Recording a value
//! moves the ring on by the buckets that passed since the last recording,
//! clears every slot it moves over, and writes the value into the slot it
//! stops at.

use crate::duration::{elapsed_buckets, Duration};
use vstd::arithmetic::div_mod::lemma_fundamental_div_mod_converse;
use vstd::prelude::*;

verus! {

/// The sum of the values of `s`, with no upper bound.
pub open spec fn seq_sum(s: Seq<u64>) -> nat
    decreases s.len(),
{
    if s.len() == 0 {
        0
    } else {
        seq_sum(s.drop_last()) + s.last() as nat
    }
}

/// `total` held to what a `u64` can carry.
pub open spec fn saturated(total: nat) -> u64 {
    if total > u64::MAX {
        u64::MAX
    } else {
        total as u64
    }
}

/// What a window holds, as plain values.
pub struct WindowState {
    /// The slot of the current bucket.
    pub start_index: u8,
    /// The ring, by slot.
    pub buckets: Seq<u64>,
    /// The bucket's length and the number of buckets.
    pub duration: Duration,
    /// The time of the last recording.
    pub last_value_time: i64,
}

impl WindowState {
    /// The ring has one slot for each bucket of the duration, and the current
    /// slot is one of them. A window therefore has at least one bucket.
    pub open spec fn wf(self) -> bool {
        &&& self.buckets.len() == self.duration.spec_get()
        &&& self.start_index < self.buckets.len()
    }

    /// The window that nothing was recorded in yet.
    pub open spec fn fresh(duration: Duration, time: i64) -> WindowState {
        WindowState {
            start_index: 0,
            buckets: Seq::new(duration.spec_get() as nat, |i: int| 0u64),
            duration,
            last_value_time: time,
        }
    }

    /// Steps forward from the current slot to `slot`, going round at the end
    /// of the ring.
    pub open spec fn steps_ahead(self, slot: int) -> int {
        if slot >= self.start_index {
            slot - self.start_index
        } else {
            slot - self.start_index + self.buckets.len()
        }
    }

    /// The slot that lies `age` steps behind the current one, going round at
    /// the start of the ring: the slot of the bucket `age` buckets ago.
    pub open spec fn slot_of_age(self, age: int) -> int {
        if age <= self.start_index {
            self.start_index - age
        } else {
            self.start_index - age + self.buckets.len()
        }
    }

    /// The recorded values from the current bucket backwards: entry `k` is
    /// the value of the bucket `k` buckets ago.
    pub open spec fn trailing(self) -> Seq<u64> {
        Seq::new(self.buckets.len(), |age: int| self.buckets[self.slot_of_age(age)])
    }

    /// The window after `value` was recorded at `time`.
    ///
    /// With `moved` the buckets elapsed since the last recording: if more
    /// than a whole ring has passed, everything is cleared and the value
    /// goes to slot 0. Otherwise the current slot moves on by `moved`, the
    /// slots it moves over are cleared, and the slot it stops at takes the
    /// value in place of what it held.
    pub open spec fn add(self, time: i64, value: u64) -> WindowState {
        let count = self.buckets.len() as int;
        let moved = elapsed_buckets(self.duration, self.last_value_time, time) as int;
        if moved > count {
            WindowState {
                start_index: 0,
                buckets: Seq::new(
                    count as nat,
                    |slot: int|
                        if slot == 0 {
                            value
                        } else {
                            0u64
                        },
                ),
                duration: self.duration,
                last_value_time: time,
            }
        } else {
            let stop = (self.start_index + moved) % count;
            WindowState {
                start_index: stop as u8,
                buckets: Seq::new(
                    count as nat,
                    |slot: int|
                        if slot == stop {
                            value
                        } else if 1 <= self.steps_ahead(slot) < moved {
                            0u64
                        } else {
                            self.buckets[slot]
                        },
                ),
                duration: self.duration,
                last_value_time: time,
            }
        }
    }

    /// The value in the slot `offset` steps ahead of the current one.
    pub open spec fn get(self, offset: u8) -> u64 {
        self.buckets[(self.start_index + offset) % (self.buckets.len() as int)]
    }

    /// The sum of all buckets, with no upper bound.
    pub open spec fn total(self) -> nat {
        seq_sum(self.buckets)
    }

    /// The sum of all buckets, held to `u64::MAX`.
    pub open spec fn rolling_sum(self) -> u64 {
        saturated(self.total())
    }
}

/// A fixed ring of per-bucket values that moves on with time.
#[derive(Debug)]
pub struct CircularTimeWindow {
    start_index: u8,
    window: Vec<u64>,
    duration: Duration,  // A duration of 30 days holds 30 buckets of a day each
    last_value_time: i64,
}

impl View for CircularTimeWindow {
    type V = WindowState;

    closed spec fn view(&self) -> WindowState {
        WindowState {
            start_index: self.start_index,
            buckets: self.window@,
            duration: self.duration,
            last_value_time: self.last_value_time,
        }
    }
}

/// A sum smaller than twice the modulus wraps round at most once.
proof fn lemma_wrap_once(x: int, n: int)
    requires
        0 <= x < 2 * n,
    ensures
        x % n == if x < n {
            x
        } else {
            x - n
        },
{
    if x < n {
        lemma_fundamental_div_mod_converse(x, n, 0, x);
    } else {
        lemma_fundamental_div_mod_converse(x, n, 1, x - n);
    }
}

impl Clone for CircularTimeWindow {
    fn clone(&self) -> (copy: Self)
        ensures
            copy@ == self@,
    {
        proof {
            use_type_invariant(&*self);
        }
        let window = self.window.clone();
        assert(window@ =~= self.window@);
        CircularTimeWindow {
            start_index: self.start_index,
            window,
            duration: self.duration,
            last_value_time: self.last_value_time,
        }
    }
}

impl CircularTimeWindow {
    #[verifier::type_invariant]
    closed spec fn inv(&self) -> bool {
        self@.wf()
    }

    /// Bytes that the serialised window takes.
    pub fn get_init_len(&self) -> (len: usize)
        ensures
            self@.wf(),
            len == 1 + 4 + self@.buckets.len() * 8 + Duration::LEN + 8,
    {
        proof {
            use_type_invariant(&*self);
        }
        return 1 + 4 + self.window.len() * 8 + Duration::LEN + 8;
    }

    /// A window of `duration` with every bucket empty, whose current bucket
    /// begins at `time`. The duration has to have at least one bucket: a
    /// ring without slots has no current one.
    pub fn new(duration: Duration, time: i64) -> (window: Self)
        requires
            duration.spec_get() >= 1,
        ensures
            window@ == WindowState::fresh(duration, time),
            window@.wf(),
    {
        let count = duration.get() as usize;
        let mut buckets: Vec<u64> = Vec::new();
        while buckets.len() < count
            invariant
                buckets.len() <= count,
                forall|i: int| 0 <= i < buckets.len() ==> buckets@[i] == 0,
            decreases count - buckets.len(),
        {
            buckets.push(0);
        }
        assert(buckets@ =~= WindowState::fresh(duration, time).buckets);
        CircularTimeWindow {
            window: buckets,
            start_index: 0,
            duration: duration,
            last_value_time: time,
        }
    }

    /// The window made of these parts, where they make one: `window` has
    /// one entry for each bucket of `duration`, and `start_index` is the
    /// place of one of them.
    pub fn from_parts(
        start_index: u8,
        window: Vec<u64>,
        duration: Duration,
        last_value_time: i64,
    ) -> (result: Option<Self>)
        ensures
            result is Some <==> (WindowState {
                start_index,
                buckets: window@,
                duration,
                last_value_time,
            }).wf(),
            result matches Some(made) ==> made@ == (WindowState {
                start_index,
                buckets: window@,
                duration,
                last_value_time,
            }),
    {
        if window.len() == duration.get() as usize && (start_index as usize) < window.len() {
            Some(CircularTimeWindow { start_index, window, duration, last_value_time })
        } else {
            None
        }
    }

    /// The slot of the current bucket.
    pub fn start_index(&self) -> (index: u8)
        ensures
            self@.wf(),
            index == self@.start_index,
    {
        proof {
            use_type_invariant(&*self);
        }
        self.start_index
    }

    /// The ring, by slot.
    pub fn window(&self) -> (buckets: &Vec<u64>)
        ensures
            self@.wf(),
            buckets@ == self@.buckets,
    {
        proof {
            use_type_invariant(&*self);
        }
        &self.window
    }

    /// The bucket's length and the number of buckets.
    pub fn duration(&self) -> (duration: Duration)
        ensures
            duration == self@.duration,
    {
        self.duration
    }

    /// The time of the last recording.
    pub fn last_value_time(&self) -> (time: i64)
        ensures
            time == self@.last_value_time,
    {
        self.last_value_time
    }

    /// Records `value` at `time`.
    ///
    /// A `time` before the last recording counts as the same bucket. The
    /// time of the last recording becomes `time` in every case.
    pub fn add(&mut self, time: i64, value: u64)
        ensures
            final(self)@ == old(self)@.add(time, value),
            final(self)@.wf(),
    {
        proof {
            use_type_invariant(&*self);
        }
        let ghost before = self@;
        let count = self.duration.get();
        let len = count as usize;
        let diff = self.get_time_difference_duration(time);
        if diff > count as u16 {
            // More than a whole ring has passed: start again from slot 0
            let mut slot: usize = 0;
            while slot < len
                invariant
                    slot <= len,
                    len == self.window.len(),
                    self.start_index == before.start_index,
                    self.duration == before.duration,
                    self.last_value_time == before.last_value_time,
                    before.wf(),
                    len == before.buckets.len(),
                    forall|i: int| 0 <= i < slot ==> self.window@[i] == 0,
                decreases len - slot,
            {
                self.window[slot] = 0;
                slot += 1;
            }
            self.start_index = 0;
            self.window[self.start_index as usize] = value;
            assert(self.window@ =~= before.add(time, value).buckets);
        } else {
            // Clear the slots between the current one and the one to stop at
            let start = self.start_index as usize;
            let mut steps: usize = 1;
            while steps < diff as usize
                invariant
                    1 <= steps,
                    steps <= diff || steps == 1,
                    diff <= len,
                    start < len,
                    start == before.start_index,
                    len == self.window.len(),
                    self.start_index == before.start_index,
                    self.duration == before.duration,
                    self.last_value_time == before.last_value_time,
                    before.wf(),
                    len == before.buckets.len(),
                    forall|i: int|
                        0 <= i < len ==> self.window@[i] == if 1 <= before.steps_ahead(i) < steps {
                            0u64
                        } else {
                            before.buckets[i]
                        },
                decreases diff - steps,
            {
                proof {
                    lemma_wrap_once(start + steps, len as int);
                }
                let slot = (start + steps) % len;
                self.window[slot] = 0;
                steps += 1;
            }
            proof {
                lemma_wrap_once(start + diff, len as int);
            }
            let stop = (start + diff as usize) % len;
            self.window[stop] = value;
            self.start_index = stop as u8;
            assert(self.window@ =~= before.add(time, value).buckets);
        }
        self.last_value_time = time;
    }

    /// The value in the slot `index` steps ahead of the current one, going
    /// round at the end of the ring.
    pub fn get(&self, index: u8) -> (value: u64)
        ensures
            self@.wf(),
            value == self@.get(index),
    {
        proof {
            use_type_invariant(&*self);
        }
        self.window[(self.start_index as usize + index as usize) % self.duration.get() as usize]
    }

    /// The rolling sum: all buckets added up, held to `u64::MAX` where the
    /// sum would pass it.
    pub fn get_count(&self) -> (sum: u64)
        ensures
            self@.wf(),
            sum == self@.rolling_sum(),
    {
        proof {
            use_type_invariant(&*self);
        }
        let mut sum: u64 = 0;
        let mut slot: usize = 0;
        while slot < self.window.len()
            invariant
                slot <= self.window.len(),
                sum == saturated(seq_sum(self.window@.take(slot as int))),
            decreases self.window.len() - slot,
        {
            assert(self.window@.take(slot + 1).drop_last() =~= self.window@.take(slot as int));
            sum = sum.saturating_add(self.window[slot]);
            slot += 1;
        }
        assert(self.window@.take(slot as int) =~= self.window@);
        sum
    }

    /// Buckets that passed between the last recording and `time`, counted no
    /// further than one past the size of the ring.
    fn get_time_difference_duration(&self, time: i64) -> (diff: u16)
        ensures
            diff == vstd::math::min(
                elapsed_buckets(self@.duration, self@.last_value_time, time) as int,
                self@.duration.spec_get() + 1,
            ),
    {
        if time < self.last_value_time {
            // Taken to lie in the same bucket
            return 0;
        }
        let seconds = (time as i128 - self.last_value_time as i128) as u64;
        Self::u8_with_overflow(seconds / self.duration.seconds_per_bucket(), self.duration.get())
    }

    /// `time_diff` where it is at most `overflow_value`, and one more than
    /// `overflow_value` where it is larger.
    fn u8_with_overflow(time_diff: u64, overflow_value: u8) -> (diff: u16)
        ensures
            diff == vstd::math::min(time_diff as int, overflow_value + 1),
    {
        if time_diff > overflow_value as u64 {
            // The whole ring has passed
            return overflow_value as u16 + 1;
        } else {
            return time_diff as u16;
        }
    }
}

} // verus!
