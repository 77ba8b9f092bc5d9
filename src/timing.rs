use vstd::prelude::*;

verus! {

/// Device timestamps count 100 ns ticks.
pub const NSECS_PER_TICK: u64 = 100;

/// The time origin after a frame stamped `ts` was seen: the first frame sets
/// it, and from then on it follows the earliest timestamp seen. `0` means
/// that no origin is set yet.
pub open spec fn observe_spec(initial: u64, ts: u64) -> u64 {
    if initial == 0 || ts <= initial {
        ts
    } else {
        initial
    }
}

/// A frame is recent enough to be emitted when it lies after the origin that
/// holds once it has been seen.
pub open spec fn is_fresh_spec(initial: u64, ts: u64) -> bool {
    ts > observe_spec(initial, ts)
}

/// Device-relative presentation time in nanoseconds, or `None` where it does
/// not fit in 64 bits.
pub open spec fn pts_delta_spec(initial: u64, ts: u64) -> Option<u64> {
    let d = (ts - initial) * NSECS_PER_TICK;
    if 0 <= d <= u64::MAX {
        Some(d as u64)
    } else {
        None
    }
}

/// Final presentation time: the device-relative delta moved by the session
/// origin, or `None` where either step does not fit in 64 bits.
pub open spec fn pts_spec(initial: u64, ts: u64, start: u64) -> Option<u64> {
    let p = (ts - initial) * NSECS_PER_TICK + start;
    if 0 <= p <= u64::MAX {
        Some(p as u64)
    } else {
        None
    }
}

/// The origin after frames stamped `ts` were seen in order, from `initial`.
pub open spec fn origin_after(initial: u64, ts: Seq<u64>) -> u64
    decreases ts.len(),
{
    if ts.len() == 0 {
        initial
    } else {
        observe_spec(origin_after(initial, ts.drop_last()), ts.last())
    }
}

/// Once set, a connection's origin never moves later: whatever nonzero
/// timestamps arrive, it stays at or below every earlier value, and it drops
/// to any timestamp that is lower than it.
pub proof fn lemma_origin_never_increases(initial: u64, ts: Seq<u64>)
    requires
        initial != 0,
        forall|i: int| 0 <= i < ts.len() ==> ts[i] != 0,
    ensures
        origin_after(initial, ts) != 0,
        origin_after(initial, ts) <= initial,
        forall|i: int| 0 <= i < ts.len() ==> origin_after(initial, ts) <= ts[i],
        forall|i: int|
            0 <= i <= ts.len() ==> origin_after(initial, ts) <= origin_after(initial, ts.take(i)),
    decreases ts.len(),
{
    if ts.len() > 0 {
        let p = ts.drop_last();
        lemma_origin_never_increases(initial, p);
        assert forall|i: int| 0 <= i < ts.len() implies origin_after(initial, ts) <= ts[i] by {
            if i < p.len() {
                assert(p[i] == ts[i]);
            }
        }
        assert forall|i: int| 0 <= i <= ts.len() implies origin_after(initial, ts) <= origin_after(
            initial,
            ts.take(i),
        ) by {
            if i < ts.len() {
                assert(ts.take(i) =~= p.take(i));
            } else {
                assert(ts.take(i) =~= ts);
            }
        }
    }
}

/// Frames with strictly increasing nonzero timestamps: after the first one, the
/// origin stays where the first left it, every later frame is fresh, and the
/// presentation times `(ts - origin) * 100 + start` of the fresh frames
/// strictly increase.
pub proof fn lemma_increasing_timestamps(initial: u64, start: u64, ts: Seq<u64>)
    requires
        ts.len() > 0,
        ts[0] != 0,
        forall|i: int, j: int| 0 <= i < j < ts.len() ==> ts[i] < ts[j],
    ensures
        forall|i: int|
            1 <= i <= ts.len() ==> origin_after(initial, ts.take(i)) == observe_spec(initial, ts[0]),
        forall|i: int|
            1 <= i < ts.len() ==> is_fresh_spec(origin_after(initial, ts.take(i)), ts[i]),
        forall|i: int|
            0 <= i < ts.len() && ts[i] > observe_spec(initial, ts[0]) ==> pts_spec(
                observe_spec(initial, ts[0]),
                ts[i],
                start,
            ) == (if (ts[i] - observe_spec(initial, ts[0])) * 100 + start <= u64::MAX {
                Some(((ts[i] - observe_spec(initial, ts[0])) * 100 + start) as u64)
            } else {
                None::<u64>
            }),
        forall|i: int, j: int|
            0 <= i < j < ts.len() && ts[i] > observe_spec(initial, ts[0]) && pts_spec(
                observe_spec(initial, ts[0]),
                ts[j],
                start,
            ) is Some ==> pts_spec(observe_spec(initial, ts[0]), ts[i], start) is Some
                && pts_spec(observe_spec(initial, ts[0]), ts[i], start)->0 < pts_spec(
                observe_spec(initial, ts[0]),
                ts[j],
                start,
            )->0,
    decreases ts.len(),
{
    let o = observe_spec(initial, ts[0]);
    assert(o <= ts[0]);
    assert(ts.take(1).drop_last() =~= Seq::<u64>::empty());
    assert forall|i: int| 1 <= i <= ts.len() implies origin_after(initial, ts.take(i)) == o by {
        lemma_prefix_origin(initial, ts, i);
    }
    assert forall|i: int| 1 <= i < ts.len() implies is_fresh_spec(
        origin_after(initial, ts.take(i)),
        ts[i],
    ) by {
        lemma_prefix_origin(initial, ts, i);
        assert(ts[0] < ts[i]);
    }
    assert forall|i: int, j: int|
        0 <= i < j < ts.len() && ts[i] > o && pts_spec(o, ts[j], start) is Some implies pts_spec(
            o,
            ts[i],
            start,
        ) is Some && pts_spec(o, ts[i], start)->0 < pts_spec(o, ts[j], start)->0 by {
        assert((ts[i] - o) * 100 < (ts[j] - o) * 100);
    }
}

proof fn lemma_prefix_origin(initial: u64, ts: Seq<u64>, i: int)
    requires
        1 <= i <= ts.len(),
        ts[0] != 0,
        forall|a: int, b: int| 0 <= a < b < ts.len() ==> ts[a] < ts[b],
    ensures
        origin_after(initial, ts.take(i)) == observe_spec(initial, ts[0]),
    decreases i,
{
    if i == 1 {
        assert(ts.take(1).drop_last() =~= Seq::<u64>::empty());
        assert(ts.take(1).last() == ts[0]);
        assert(origin_after(initial, Seq::<u64>::empty()) == initial);
    } else {
        lemma_prefix_origin(initial, ts, i - 1);
        assert(ts.take(i).drop_last() =~= ts.take(i - 1));
        assert(ts.take(i).last() == ts[i - 1]);
        assert(ts[0] < ts[i - 1]);
        assert(origin_after(initial, ts.take(i)) == observe_spec(
            origin_after(initial, ts.take(i - 1)),
            ts[i - 1],
        ));
    }
}

/// The mutable per-connection state shared by every source on one receiver.
#[derive(Debug, Clone, Copy, PartialEq, Eq, Structural)]
pub struct Connection {
    pub initial_timestamp: u64,
}

impl Connection {
    pub fn new() -> (r: Connection)
        ensures
            r.initial_timestamp == 0,
    {
        Connection { initial_timestamp: 0 }
    }

    /// Records a frame's device timestamp and says whether the frame lies after
    /// the origin, so that it can be emitted.
    pub fn observe(&mut self, ts: u64) -> (fresh: bool)
        ensures
            final(self).initial_timestamp == observe_spec(old(self).initial_timestamp, ts),
            fresh == is_fresh_spec(old(self).initial_timestamp, ts),
            old(self).initial_timestamp != 0 ==> final(self).initial_timestamp
                <= old(self).initial_timestamp,
            fresh ==> final(self).initial_timestamp == old(self).initial_timestamp,
    {
        if self.initial_timestamp == 0 || ts <= self.initial_timestamp {
            self.initial_timestamp = ts;
        }
        ts > self.initial_timestamp
    }
}

/// Device-relative presentation time of a frame stamped `ts` after `initial`.
pub fn pts_delta(initial: u64, ts: u64) -> (r: Option<u64>)
    requires
        initial < ts,
    ensures
        r == pts_delta_spec(initial, ts),
{
    (ts - initial).checked_mul(NSECS_PER_TICK)
}

/// The pipeline-clock origin shared by the sources of one session: latched
/// once, on the first buffer that any of them produces.
#[derive(Debug, Clone, Copy, PartialEq, Eq, Structural)]
pub struct SessionOrigin {
    pub start_pts: Option<u64>,
}

impl SessionOrigin {
    pub fn new() -> (r: SessionOrigin)
        ensures
            r.start_pts is None,
    {
        SessionOrigin { start_pts: None }
    }

    pub fn is_latched(&self) -> (r: bool)
        ensures
            r == self.start_pts is Some,
    {
        self.start_pts.is_some()
    }

    /// Latches `now` (the pipeline clock less its base time) unless an origin
    /// is already set, and returns the origin in force.
    pub fn latch(&mut self, now: u64) -> (r: u64)
        ensures
            old(self).start_pts is Some ==> *final(self) == *old(self),
            old(self).start_pts is None ==> final(self).start_pts == Some(now),
            final(self).start_pts == Some(r),
    {
        match self.start_pts {
            Some(s) => s,
            None => {
                self.start_pts = Some(now);
                now
            },
        }
    }

    /// Presentation time of a buffer whose device-relative time is `delta`:
    /// latches the origin on first use, then adds it to `delta`.
    pub fn stamp(&mut self, delta: Option<u64>, now: u64) -> (r: Option<u64>)
        ensures
            old(self).start_pts is Some ==> *final(self) == *old(self),
            old(self).start_pts is None ==> final(self).start_pts == Some(now),
            final(self).start_pts is Some,
            delta is None ==> r is None,
            delta is Some ==> r == (if delta->0 + final(self).start_pts->0 <= u64::MAX {
                Some((delta->0 + final(self).start_pts->0) as u64)
            } else {
                None::<u64>
            }),
    {
        let start = self.latch(now);
        match delta {
            Some(d) => d.checked_add(start),
            None => None,
        }
    }
}

/// Presentation time of a fresh frame: `(ts - initial) * 100 + start`
/// nanoseconds, or `None` where that does not fit in 64 bits.
pub fn presentation_timestamp(initial: u64, ts: u64, start: u64) -> (r: Option<u64>)
    requires
        initial < ts,
    ensures
        r == pts_spec(initial, ts, start),
{
    match pts_delta(initial, ts) {
        Some(d) => d.checked_add(start),
        None => None,
    }
}

} // verus!
