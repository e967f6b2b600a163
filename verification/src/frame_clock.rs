use vstd::prelude::*;

verus! {

/// How many round-trip times the clock keeps: the latest ones, in a ring.
pub const SAMPLE_SLOTS: usize = 64;

/// The ring after one round-trip time `sample` is written at `cursor`: the slot under the
/// cursor takes the sample and the cursor moves on by one, wrapping after the last slot.
pub open spec fn ring_step<T>(slots: Seq<T>, cursor: int, sample: T) -> (Seq<T>, int) {
    (slots.update(cursor, sample), (cursor + 1) % (SAMPLE_SLOTS as int))
}

/// The ring after `samples` are written one after the other, oldest first.
pub open spec fn ring_record<T>(slots: Seq<T>, cursor: int, samples: Seq<T>) -> (Seq<T>, int)
    decreases samples.len(),
{
    if samples.len() == 0 {
        (slots, cursor)
    } else {
        let prev = ring_record(slots, cursor, samples.drop_last());
        ring_step(prev.0, prev.1, samples.last())
    }
}

/// How the start of a frame, given the time `round_trip` since the previous start,
/// changes the clock: before the first frame has finished the time is not kept; after
/// that it is written into the ring.
pub open spec fn started<T>(before: FrameClock<T>, after: FrameClock<T>, round_trip: T) -> bool {
    &&& after.well_formed()
    &&& after.frames() == before.frames()
    &&& before.frames() == 0 ==> after.slots() == before.slots() && after.cursor()
        == before.cursor()
    &&& before.frames() != 0 ==> (after.slots(), after.cursor()) == ring_step(
        before.slots(),
        before.cursor(),
        round_trip,
    )
}

/// How the end of a frame changes the clock: one more frame has finished.
pub open spec fn finished<T>(before: FrameClock<T>, after: FrameClock<T>) -> bool {
    &&& after.well_formed()
    &&& after.frames() == before.frames() + 1
    &&& after.slots() == before.slots()
    &&& after.cursor() == before.cursor()
}

/// The cursor stands where the frame count puts it: every finished frame but the first
/// has written one time into the ring.
pub open spec fn cursor_follows_frames<T>(clock: FrameClock<T>) -> bool {
    clock.cursor() == if clock.frames() == 0 {
        0
    } else {
        (clock.frames() - 1) % (SAMPLE_SLOTS as int)
    }
}

/// Keeps count of the frames the engine has run and the round-trip time of the latest
/// frames, from which the engine reports how long a full loop takes on average.
///
/// The round-trip times are of any `Copy` type `T`: the clock stores them and never
/// computes with them.
pub struct FrameClock<T> {
    samples: Vec<T>,
    cursor: usize,
    frame_count: u32,
}

impl<T> FrameClock<T> {
    /// A full ring, and a cursor that points into it.
    pub open spec fn well_formed(self) -> bool {
        &&& self.slots().len() == SAMPLE_SLOTS
        &&& 0 <= self.cursor() < SAMPLE_SLOTS
    }

    /// The ring of round-trip times, one per slot.
    pub closed spec fn slots(self) -> Seq<T> {
        self.samples@
    }

    /// The slot that the next round-trip time goes to.
    pub closed spec fn cursor(self) -> int {
        self.cursor as int
    }

    /// The number of frames finished so far.
    pub closed spec fn frames(self) -> nat {
        self.frame_count as nat
    }

    /// Marks the start of a frame, given the time since the previous frame started.
    /// Before the first frame has finished there is no previous frame, and the time is
    /// not kept; after that it is written into the ring.
    pub fn start_frame(&mut self, round_trip: T)
        requires
            old(self).well_formed(),
        ensures
            started(*old(self), *final(self), round_trip),
    {
        if self.frame_count != 0 {
            let c = self.cursor;
            self.samples.set(c, round_trip);
            self.cursor = (c + 1) % SAMPLE_SLOTS;
        }
    }

    /// Marks the end of a frame: one more frame has finished.
    pub fn finish_frame(&mut self)
        requires
            old(self).well_formed(),
            old(self).frames() < u32::MAX,
        ensures
            finished(*old(self), *final(self)),
    {
        self.frame_count = self.frame_count + 1;
    }

    /// The number of frames finished so far.
    pub fn frame_count(&self) -> (count: u32)
        ensures
            count == self.frames(),
    {
        self.frame_count
    }

    /// The ring of round-trip times.
    pub fn samples(&self) -> (samples: &[T])
        requires
            self.well_formed(),
        ensures
            samples@ == self.slots(),
    {
        self.samples.as_slice()
    }
}

impl<T: Copy> FrameClock<T> {
    /// A clock for an engine that has run no frame yet, every slot of its ring holding
    /// `zero`.
    pub fn new(zero: T) -> (clock: FrameClock<T>)
        ensures
            clock.well_formed(),
            clock.frames() == 0,
            clock.cursor() == 0,
            clock.slots() == Seq::new(SAMPLE_SLOTS as nat, |i: int| zero),
            cursor_follows_frames(clock),
    {
        let mut samples: Vec<T> = Vec::new();
        while samples.len() < SAMPLE_SLOTS
            invariant
                samples.len() <= SAMPLE_SLOTS,
                forall|i: int| 0 <= i < samples.len() ==> samples@[i] == zero,
            decreases SAMPLE_SLOTS - samples.len(),
        {
            samples.push(zero);
        }
        let clock = FrameClock { samples, cursor: 0, frame_count: 0 };
        assert(clock.slots() == Seq::new(SAMPLE_SLOTS as nat, |i: int| zero));
        clock
    }
}

/// The ring keeps the latest round-trip times: after `samples` are written into a ring
/// of `SAMPLE_SLOTS` slots from `cursor` on, the cursor has moved on by their number
/// (wrapping), the `k`-th latest sample sits `k + 1` slots behind the cursor for each of
/// the latest `SAMPLE_SLOTS` samples, and the slots no sample reached hold what they held.
pub proof fn lemma_ring_keeps_latest<T>(slots: Seq<T>, cursor: int, samples: Seq<T>)
    requires
        slots.len() == SAMPLE_SLOTS,
        0 <= cursor < SAMPLE_SLOTS,
    ensures
        ring_record(slots, cursor, samples).0.len() == SAMPLE_SLOTS,
        ring_record(slots, cursor, samples).1 == (cursor + samples.len()) % (SAMPLE_SLOTS as int),
        forall|k: int|
            0 <= k < samples.len() && k < SAMPLE_SLOTS ==> #[trigger] ring_record(
                slots,
                cursor,
                samples,
            ).0[(cursor + samples.len() - 1 - k) % (SAMPLE_SLOTS as int)] == samples[samples.len()
                - 1 - k],
        forall|j: int|
            samples.len() <= j < SAMPLE_SLOTS ==> #[trigger] ring_record(slots, cursor, samples).0[(
            cursor + j) % (SAMPLE_SLOTS as int)] == slots[(cursor + j) % (SAMPLE_SLOTS as int)],
    decreases samples.len(),
{
    let n = samples.len() as int;
    if n > 0 {
        let init = samples.drop_last();
        lemma_ring_keeps_latest(slots, cursor, init);
        let prev = ring_record(slots, cursor, init);
        let now = ring_record(slots, cursor, samples);
        assert(now == ring_step(prev.0, prev.1, samples.last()));
        assert forall|k: int| 0 <= k < n && k < SAMPLE_SLOTS implies #[trigger] now.0[(cursor + n
            - 1 - k) % (SAMPLE_SLOTS as int)] == samples[n - 1 - k] by {
            if k > 0 {
                let k1 = k - 1;
                assert(init.len() == n - 1);
                assert(ring_record(slots, cursor, init).0[(cursor + init.len() - 1 - k1) % (
                SAMPLE_SLOTS as int)] == init[init.len() - 1 - k1]);
                assert(cursor + init.len() - 1 - k1 == cursor + n - 1 - k);
                assert(init[init.len() - 1 - k1] == samples[n - 1 - k]);
                assert((cursor + n - 1 - k) % (SAMPLE_SLOTS as int) != (cursor + n - 1) % (
                SAMPLE_SLOTS as int));
            }
        }
        assert forall|j: int| n <= j < SAMPLE_SLOTS implies #[trigger] now.0[(cursor + j) % (
        SAMPLE_SLOTS as int)] == slots[(cursor + j) % (SAMPLE_SLOTS as int)] by {
            assert(prev.0[(cursor + j) % (SAMPLE_SLOTS as int)] == slots[(cursor + j) % (
            SAMPLE_SLOTS as int)]);
        }
    }
}

/// Over any run of whole frames (a start, then an end) the cursor keeps standing where
/// the frame count puts it: at 0 before any frame, and at `(frames - 1) % SAMPLE_SLOTS`
/// after that.
pub proof fn lemma_cursor_follows_frames<T>(
    before: FrameClock<T>,
    middle: FrameClock<T>,
    after: FrameClock<T>,
    round_trip: T,
)
    requires
        before.well_formed(),
        cursor_follows_frames(before),
        started(before, middle, round_trip),
        finished(middle, after),
    ensures
        after.well_formed(),
        cursor_follows_frames(after),
{
    if before.frames() != 0 {
        let n = before.frames() - 1;
        assert(((n % (SAMPLE_SLOTS as int)) + 1) % (SAMPLE_SLOTS as int) == (n + 1) % (
        SAMPLE_SLOTS as int));
    }
}

/// Over a whole run of frames from a fresh clock, each frame a start (given the round-trip
/// time `samples[k]`) and then an end (`states[k]` before frame `k`, `starts[k]` after its
/// start, `states[k + 1]` after its end): after `k` frames the clock has counted `k`
/// frames, its cursor stands at `(k - 1) % SAMPLE_SLOTS` (at 0 before any frame), and its
/// ring is the fresh ring with the times of frames `1` to `k - 1` written in order (the
/// first frame has none), so that by `lemma_ring_keeps_latest` it holds the latest
/// `SAMPLE_SLOTS` of them.
pub proof fn lemma_run_of_frames<T>(
    states: Seq<FrameClock<T>>,
    starts: Seq<FrameClock<T>>,
    samples: Seq<T>,
)
    requires
        states.len() == samples.len() + 1,
        starts.len() == samples.len(),
        states[0].well_formed(),
        states[0].frames() == 0,
        states[0].cursor() == 0,
        forall|k: int|
            0 <= k < samples.len() ==> started(states[k], #[trigger] starts[k], samples[k])
                && finished(starts[k], states[k + 1]),
    ensures
        forall|k: int|
            0 <= k < states.len() ==> {
                &&& (#[trigger] states[k]).well_formed()
                &&& states[k].frames() == k
                &&& cursor_follows_frames(states[k])
                &&& k >= 1 ==> (states[k].slots(), states[k].cursor()) == ring_record(
                    states[0].slots(),
                    states[0].cursor(),
                    samples.subrange(1, k),
                )
            },
    decreases samples.len(),
{
    let n = samples.len() as int;
    if n > 0 {
        lemma_run_of_frames(states.drop_last(), starts.drop_last(), samples.drop_last());
        assert forall|k: int| 0 <= k < states.len() - 1 implies states.drop_last()[k] == states[k]
            by {}
        let k = n - 1;
        assert(states.drop_last()[k] == states[k]);
        assert(started(states[k], starts[k], samples[k]) && finished(starts[k], states[k + 1]));
        lemma_cursor_follows_frames(states[k], starts[k], states[k + 1], samples[k]);
        if k >= 1 {
            assert(samples.subrange(1, k + 1).drop_last() =~= samples.subrange(1, k));
            assert(samples.subrange(1, k + 1).last() == samples[k]);
        } else {
            assert(samples.subrange(1, 1) =~= Seq::<T>::empty());
        }
        assert forall|j: int| 0 <= j < states.len() implies {
            &&& (#[trigger] states[j]).well_formed()
            &&& states[j].frames() == j
            &&& cursor_follows_frames(states[j])
            &&& j >= 1 ==> (states[j].slots(), states[j].cursor()) == ring_record(
                states[0].slots(),
                states[0].cursor(),
                samples.subrange(1, j),
            )
        } by {
            if j < n {
                assert(states.drop_last()[j] == states[j]);
                if j >= 1 {
                    assert(samples.drop_last().subrange(1, j) =~= samples.subrange(1, j));
                }
            } else {
                assert(states[k].frames() == k);
                if k >= 1 {
                    let rest = samples.subrange(1, k + 1);
                    assert(ring_record(states[0].slots(), states[0].cursor(), samples.subrange(1, k))
                        == (states[k].slots(), states[k].cursor())) by {
                        assert(samples.drop_last().subrange(1, k) =~= samples.subrange(1, k));
                    }
                    assert(ring_record(states[0].slots(), states[0].cursor(), rest) == ring_step(
                        states[k].slots(),
                        states[k].cursor(),
                        samples[k],
                    ));
                } else {
                    assert(ring_record(
                        states[0].slots(),
                        states[0].cursor(),
                        samples.subrange(1, 1),
                    ) == (states[0].slots(), states[0].cursor()));
                }
            }
        }
    }
}

} // verus!
