//! Frame timing: when the animation started, when the last frame was drawn,
//! and when the frame rate was last reported.
//!
//! Timestamps are nanoseconds on a clock of the caller's choice that never
//! runs backwards.

use vstd::prelude::*;

verus! {

/// A frame-rate readout is due once more than this has passed since the
/// previous one: 50 ms.
pub const READOUT_INTERVAL_NANOS: u64 = 50_000_000;

#[derive(Clone, Copy, Debug, PartialEq, Eq, Structural)]
pub struct Timing {
    pub time_start: u64,
    pub time_last_draw: u64,
    pub time_last_print: u64,
}

impl Timing {
    /// The three timestamps are in the order in which they were taken.
    pub open spec fn wf(self) -> bool {
        self.time_start <= self.time_last_print <= self.time_last_draw
    }

    pub open spec fn spec_new(now: u64) -> Timing {
        Timing { time_start: now, time_last_draw: now, time_last_print: now }
    }

    /// Whether a frame at `now` reports the frame rate.
    pub open spec fn readout_due(self, now: u64) -> bool {
        now - self.time_last_print > READOUT_INTERVAL_NANOS
    }

    /// What a frame at `now` reports: the time since the previous frame, if a
    /// readout is due.
    pub open spec fn spec_readout(self, now: u64) -> Option<u64> {
        if self.readout_due(now) {
            Some((now - self.time_last_draw) as u64)
        } else {
            None
        }
    }

    /// The timestamps after a frame at `now`.
    pub open spec fn spec_update(self, now: u64) -> Timing {
        Timing {
            time_start: self.time_start,
            time_last_draw: now,
            time_last_print: if self.readout_due(now) {
                now
            } else {
                self.time_last_print
            },
        }
    }

    /// The timestamps after one frame at each of `times`, in order.
    pub open spec fn after_frames(self, times: Seq<u64>) -> Timing
        decreases times.len(),
    {
        if times.len() == 0 {
            self
        } else {
            self.after_frames(times.drop_last()).spec_update(times.last())
        }
    }

    /// What frame `k` of a run of frames reports.
    pub open spec fn readout_of_frame(self, times: Seq<u64>, k: int) -> Option<u64> {
        self.after_frames(times.take(k)).spec_readout(times[k])
    }

    /// The times of a run of frames that may follow this state: none before
    /// the last frame drawn, and none before its predecessor.
    pub open spec fn admits(self, times: Seq<u64>) -> bool {
        &&& forall|i: int| 0 <= i < times.len() ==> self.time_last_draw <= #[trigger] times[i]
        &&& forall|i: int, j: int| 0 <= i <= j < times.len() ==> times[i] <= times[j]
    }

    /// Starts the clock: everything happened at `now`.
    pub fn new(now: u64) -> (timing: Timing)
        ensures
            timing == Self::spec_new(now),
            timing.wf(),
    {
        Timing { time_start: now, time_last_draw: now, time_last_print: now }
    }

    /// Time since the animation started.
    pub fn elapsed(&self, now: u64) -> (nanos: u64)
        requires
            self.time_start <= now,
        ensures
            nanos == now - self.time_start,
    {
        now - self.time_start
    }

    /// Records a frame drawn at `now`. Returns the time since the previous
    /// frame if the frame rate is to be reported, which is when more than
    /// `READOUT_INTERVAL_NANOS` have passed since the last report.
    pub fn update(&mut self, now: u64) -> (readout: Option<u64>)
        requires
            old(self).wf(),
            old(self).time_last_draw <= now,
        ensures
            *final(self) == old(self).spec_update(now),
            readout == old(self).spec_readout(now),
            final(self).wf(),
            readout is Some <==> now - old(self).time_last_print > READOUT_INTERVAL_NANOS,
            readout matches Some(frame_nanos) ==> frame_nanos == now - old(self).time_last_draw
                && final(self).time_last_print == now,
            readout is None ==> final(self).time_last_print == old(self).time_last_print,
            final(self).time_last_draw == now,
            final(self).time_start == old(self).time_start,
    {
        let mut readout: Option<u64> = None;
        if now - self.time_last_print > READOUT_INTERVAL_NANOS {
            readout = Some(now - self.time_last_draw);
            self.time_last_print = now;
        }
        self.time_last_draw = now;
        readout
    }
}

/// Over a run of frames, whatever their times, the start stays, the time of
/// the last report never goes back, and after a frame that reported it is at
/// least the time of that frame.
pub proof fn lemma_reports_advance(t: Timing, times: Seq<u64>)
    ensures
        t.after_frames(times).time_start == t.time_start,
        t.after_frames(times).time_last_print >= t.time_last_print,
        times.len() > 0 ==> t.after_frames(times).time_last_draw == times.last(),
        times.len() == 0 ==> t.after_frames(times) == t,
        forall|i: int|
            0 <= i < times.len() && t.readout_of_frame(times, i) is Some ==> t.after_frames(
                times,
            ).time_last_print >= #[trigger] times[i],
    decreases times.len(),
{
    if times.len() > 0 {
        let head = times.drop_last();
        lemma_reports_advance(t, head);
        let after = t.after_frames(times);
        assert forall|i: int|
            0 <= i < times.len() && t.readout_of_frame(times, i) is Some implies after.time_last_print
            >= #[trigger] times[i] by {
            if i < head.len() {
                assert(times.take(i) =~= head.take(i));
                assert(t.readout_of_frame(head, i) is Some);
            } else {
                assert(times.take(i) =~= head);
            }
        }
    }
}

/// A run of frames whose times do not go backwards keeps the timestamps in
/// order.
pub proof fn lemma_after_frames(t: Timing, times: Seq<u64>)
    requires
        t.wf(),
        t.admits(times),
    ensures
        t.after_frames(times).wf(),
    decreases times.len(),
{
    lemma_reports_advance(t, times);
    if times.len() > 0 {
        let head = times.drop_last();
        lemma_after_frames(t, head);
        lemma_reports_advance(t, head);
        if head.len() > 0 {
            assert(head.last() == times[times.len() - 2]);
        }
    }
}

/// Two reports of one run of frames are more than the readout interval apart,
/// however many frames were drawn between them and whatever their times.
pub proof fn lemma_readouts_are_spaced(t: Timing, times: Seq<u64>, i: int, j: int)
    requires
        0 <= i < j < times.len(),
        t.readout_of_frame(times, i) is Some,
        t.readout_of_frame(times, j) is Some,
    ensures
        times[j] - times[i] > READOUT_INTERVAL_NANOS,
{
    let head = times.take(j);
    lemma_reports_advance(t, head);
    assert(head.take(i) =~= times.take(i));
    assert(t.readout_of_frame(head, i) is Some);
}

/// A frame reports only when more than the readout interval has passed since
/// the report before it, or since the clock was started if there was none;
/// a frame that comes sooner reports nothing and leaves the time of the last
/// report as it was.
pub proof fn lemma_readout_waits(t: Timing, times: Seq<u64>, k: int)
    requires
        0 <= k < times.len(),
    ensures
        ({
            let before = t.after_frames(times.take(k));
            let waited = times[k] - before.time_last_print;
            &&& t.readout_of_frame(times, k) is Some <==> waited > READOUT_INTERVAL_NANOS
            &&& waited <= READOUT_INTERVAL_NANOS ==> before.spec_update(times[k]).time_last_print
                == before.time_last_print
            &&& t.readout_of_frame(times, k) is Some ==> times[k] - t.time_last_print
                > READOUT_INTERVAL_NANOS
            &&& t.readout_of_frame(times, k) is Some && t.wf() ==> times[k] - t.time_start
                > READOUT_INTERVAL_NANOS
        }),
{
    lemma_reports_advance(t, times.take(k));
}

} // verus!
