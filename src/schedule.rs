use vstd::prelude::*;

verus! {

/// How often a frame is painted, in milliseconds.
pub const PAINT_INTERVAL_MS: u64 = 500;

/// Milliseconds in one second.
pub const MS_PER_SECOND: u64 = 1000;

/// The whole seconds shown by the countdown while `now < deadline`: the remaining
/// time rounded down, plus one, so that the countdown never shows zero.
pub open spec fn countdown_spec(deadline: int, now: int) -> int {
    (deadline - now) / (MS_PER_SECOND as int) + 1
}

/// Seconds left until `deadline`, as the dashboard shows them.
pub fn countdown_secs(deadline: u64, now: u64) -> (r: u64)
    requires
        now < deadline,
    ensures
        r as int == countdown_spec(deadline as int, now as int),
        r >= 1,
{
    (deadline - now) / MS_PER_SECOND + 1
}

/// Whether a background refresh is running. Holding this as a two-valued slot is
/// what keeps a second refresh from starting while one is in flight.
#[derive(Clone, Copy, Debug, PartialEq, Eq, Structural)]
pub enum JobSlot {
    Idle,
    InFlight,
}

/// The status line of one frame: exactly one of the two texts.
#[derive(Clone, Copy, Debug, PartialEq, Eq, Structural)]
pub enum Status {
    /// Seconds left until the next refresh starts.
    Countdown(u64),
    /// A refresh is running.
    Updating,
}

/// What one tick decided about the background refresh.
#[derive(Clone, Copy, Debug, PartialEq, Eq, Structural)]
pub struct Plan {
    /// The status line to draw in this frame.
    pub status: Status,
    /// Start a new background refresh now.
    pub spawn: bool,
    /// The refresh that was in flight has finished and its result was taken in.
    pub reaped: bool,
}

/// The two deadlines of the loop, all times in milliseconds on one monotonic clock.
#[derive(Clone, Copy, Debug, PartialEq, Eq, Structural)]
pub struct Schedule {
    /// When the next frame is due.
    pub next_paint: u64,
    /// When the next background refresh is due.
    pub next_refresh: u64,
    /// Time from a finished refresh to the next one.
    pub refresh_interval: u64,
    /// The background refresh slot.
    pub job: JobSlot,
}

/// The schedule after a finished refresh has been taken in, if one was.
pub open spec fn reap_spec(s: Schedule, now: u64, done: bool) -> Schedule {
    if s.job == JobSlot::InFlight && done {
        Schedule { job: JobSlot::Idle, next_refresh: (now + s.refresh_interval) as u64, ..s }
    } else {
        s
    }
}

/// One tick of the refresh state machine: take in a finished refresh, then either
/// keep showing the running one, start one whose deadline has passed, or count down.
pub open spec fn refresh_spec(s: Schedule, now: u64, done: bool) -> (Schedule, Plan) {
    let reaped = s.job == JobSlot::InFlight && done;
    let r = reap_spec(s, now, done);
    if r.job == JobSlot::InFlight {
        (r, Plan { status: Status::Updating, spawn: false, reaped })
    } else if r.next_refresh <= now {
        (Schedule { job: JobSlot::InFlight, ..r }, Plan { status: Status::Updating, spawn: true, reaped })
    } else {
        (
            r,
            Plan {
                status: Status::Countdown(countdown_spec(r.next_refresh as int, now as int) as u64),
                spawn: false,
                reaped,
            },
        )
    }
}

/// The paint deadline after one tick: exactly one interval later, whatever the tick cost.
pub open spec fn paint_step(s: Schedule) -> Schedule {
    Schedule { next_paint: (s.next_paint + PAINT_INTERVAL_MS) as u64, ..s }
}

/// The moment the loop resumes after sleeping toward `deadline` from `now`: the
/// deadline itself, or `now` when the tick overran it.
pub open spec fn wake_time(deadline: int, now: int) -> int {
    if now < deadline {
        deadline
    } else {
        now
    }
}

impl Schedule {
    /// A schedule that starts at `now`: the first frame is due one paint interval
    /// later, the first refresh one refresh interval later, and nothing runs.
    pub fn new(now: u64, refresh_interval: u64) -> (r: Schedule)
        requires
            now + PAINT_INTERVAL_MS <= u64::MAX,
            now + refresh_interval <= u64::MAX,
        ensures
            r.next_paint == now + PAINT_INTERVAL_MS,
            r.next_refresh == now + refresh_interval,
            r.refresh_interval == refresh_interval,
            r.job == JobSlot::Idle,
    {
        Schedule {
            next_paint: now + PAINT_INTERVAL_MS,
            next_refresh: now + refresh_interval,
            refresh_interval,
            job: JobSlot::Idle,
        }
    }

    /// Runs the refresh state machine for the tick at `now`; `done` tells whether
    /// the refresh in flight, if any, has finished.
    pub fn refresh(&mut self, now: u64, done: bool) -> (plan: Plan)
        requires
            old(self).job == JobSlot::InFlight && done ==> now + old(self).refresh_interval
                <= u64::MAX,
        ensures
            (*final(self), plan) == refresh_spec(*old(self), now, done),
            final(self).next_paint == old(self).next_paint,
            plan.status == Status::Updating <==> final(self).job == JobSlot::InFlight,
            plan.spawn ==> old(self).job == JobSlot::Idle || plan.reaped,
            plan.reaped ==> final(self).next_refresh == now + old(self).refresh_interval,
    {
        let reaped = self.job == JobSlot::InFlight && done;
        if reaped {
            self.job = JobSlot::Idle;
            self.next_refresh = now + self.refresh_interval;
        }
        if self.job == JobSlot::InFlight {
            Plan { status: Status::Updating, spawn: false, reaped }
        } else if self.next_refresh <= now {
            self.job = JobSlot::InFlight;
            Plan { status: Status::Updating, spawn: true, reaped }
        } else {
            let secs = countdown_secs(self.next_refresh, now);
            Plan { status: Status::Countdown(secs), spawn: false, reaped }
        }
    }

    /// Ends the tick whose work finished at `now`: returns how long to sleep until
    /// the paint deadline (zero when it has passed) and moves the deadline on by
    /// exactly one paint interval.
    pub fn end_tick(&mut self, now: u64) -> (sleep_ms: u64)
        requires
            old(self).next_paint + PAINT_INTERVAL_MS <= u64::MAX,
        ensures
            *final(self) == paint_step(*old(self)),
            final(self).next_paint == old(self).next_paint + PAINT_INTERVAL_MS,
            now + sleep_ms == wake_time(old(self).next_paint as int, now as int),
    {
        let sleep_ms: u64 = if now < self.next_paint {
            self.next_paint - now
        } else {
            0
        };
        self.next_paint = self.next_paint + PAINT_INTERVAL_MS;
        sleep_ms
    }
}

/// The schedule after `k` ticks that each moved the paint deadline on.
pub open spec fn paints_after(s: Schedule, k: nat) -> Schedule
    decreases k,
{
    if k == 0 {
        s
    } else {
        paint_step(paints_after(s, (k - 1) as nat))
    }
}

/// The schedule and the plans after a sequence of ticks, each given as its time and
/// whether the refresh in flight had finished by then.
pub open spec fn run_spec(s: Schedule, ticks: Seq<(u64, bool)>) -> (Schedule, Seq<Plan>)
    decreases ticks.len(),
{
    if ticks.len() == 0 {
        (s, Seq::empty())
    } else {
        let (s1, ps) = run_spec(s, ticks.drop_last());
        let (s2, p) = refresh_spec(s1, ticks.last().0, ticks.last().1);
        (s2, ps.push(p))
    }
}

/// How many refreshes a schedule has running: zero or one.
pub open spec fn in_flight(s: Schedule) -> int {
    if s.job == JobSlot::InFlight {
        1
    } else {
        0
    }
}

/// How many of the plans start a refresh.
pub open spec fn count_spawns(ps: Seq<Plan>) -> int
    decreases ps.len(),
{
    if ps.len() == 0 {
        0
    } else {
        count_spawns(ps.drop_last()) + if ps.last().spawn {
            1int
        } else {
            0int
        }
    }
}

/// How many of the plans take in a finished refresh.
pub open spec fn count_reaps(ps: Seq<Plan>) -> int
    decreases ps.len(),
{
    if ps.len() == 0 {
        0
    } else {
        count_reaps(ps.drop_last()) + if ps.last().reaped {
            1int
        } else {
            0int
        }
    }
}

proof fn lemma_paints_after(s: Schedule, k: nat)
    requires
        s.next_paint + k * PAINT_INTERVAL_MS <= u64::MAX,
    ensures
        paints_after(s, k).next_paint == s.next_paint + k * PAINT_INTERVAL_MS,
    decreases k,
{
    if k > 0 {
        lemma_paints_after(s, (k - 1) as nat);
    }
}

/// The paint cadence does not drift: after `k` ticks the paint deadline lies exactly
/// `k` intervals past the first, however long each tick took. When the work of each
/// tick ends before that tick's deadline (`ends[k]`, for the `k`-th tick), every tick
/// resumes exactly on its deadline, so consecutive frames are one interval apart.
pub proof fn lemma_paint_cadence(s: Schedule, ends: Seq<int>)
    requires
        s.next_paint + ends.len() * PAINT_INTERVAL_MS <= u64::MAX,
        forall|k: int| 0 <= k < ends.len() ==> ends[k] < s.next_paint + k * PAINT_INTERVAL_MS,
    ensures
        forall|k: nat|
            k <= ends.len() ==> #[trigger] paints_after(s, k).next_paint == s.next_paint + k
                * PAINT_INTERVAL_MS,
        forall|k: int|
            0 <= k < ends.len() ==> #[trigger] wake_time(
                paints_after(s, k as nat).next_paint as int,
                ends[k],
            ) == s.next_paint + k * PAINT_INTERVAL_MS,
        forall|k: int|
            1 <= k < ends.len() ==> #[trigger] wake_time(
                paints_after(s, k as nat).next_paint as int,
                ends[k],
            ) - wake_time(paints_after(s, (k - 1) as nat).next_paint as int, ends[k - 1])
                == PAINT_INTERVAL_MS,
{
    assert forall|k: nat| k <= ends.len() implies #[trigger] paints_after(s, k).next_paint
        == s.next_paint + k * PAINT_INTERVAL_MS by {
        assert(s.next_paint + k * PAINT_INTERVAL_MS <= u64::MAX) by (nonlinear_arith)
            requires
                k <= ends.len(),
                s.next_paint + ends.len() * PAINT_INTERVAL_MS <= u64::MAX,
        ;
        lemma_paints_after(s, k);
    }
    assert forall|k: int| 1 <= k < ends.len() implies #[trigger] wake_time(
        paints_after(s, k as nat).next_paint as int,
        ends[k],
    ) - wake_time(paints_after(s, (k - 1) as nat).next_paint as int, ends[k - 1])
        == PAINT_INTERVAL_MS by {
        assert(paints_after(s, k as nat).next_paint == s.next_paint + k * PAINT_INTERVAL_MS);
        assert(paints_after(s, (k - 1) as nat).next_paint == s.next_paint + (k - 1)
            * PAINT_INTERVAL_MS);
    }
}

/// At most one refresh is in flight: over any sequence of ticks, the refresh running
/// at the start plus those started minus those taken in is the number running at the
/// end, which is zero or one. Ticks that pass while the deadline lies in the past and
/// a refresh runs start nothing.
pub proof fn lemma_at_most_one_in_flight(s: Schedule, ticks: Seq<(u64, bool)>)
    ensures
        in_flight(s) + count_spawns(run_spec(s, ticks).1) - count_reaps(run_spec(s, ticks).1)
            == in_flight(run_spec(s, ticks).0),
        0 <= in_flight(run_spec(s, ticks).0) <= 1,
        run_spec(s, ticks).1.len() == ticks.len(),
    decreases ticks.len(),
{
    if ticks.len() > 0 {
        lemma_at_most_one_in_flight(s, ticks.drop_last());
        let (s1, ps) = run_spec(s, ticks.drop_last());
        let (s2, p) = refresh_spec(s1, ticks.last().0, ticks.last().1);
        assert(ps.push(p).drop_last() =~= ps);
    }
}

/// A refresh that never finishes: from a schedule with a refresh in flight, ticks
/// that never report it finished leave the schedule as it was, so no second refresh
/// starts and the refresh deadline never moves, and every frame shows the updating
/// text.
pub proof fn lemma_stalled_refresh(s: Schedule, ticks: Seq<(u64, bool)>)
    requires
        s.job == JobSlot::InFlight,
        forall|i: int| 0 <= i < ticks.len() ==> !(#[trigger] ticks[i]).1,
    ensures
        run_spec(s, ticks).0 == s,
        run_spec(s, ticks).1.len() == ticks.len(),
        forall|i: int|
            0 <= i < ticks.len() ==> #[trigger] run_spec(s, ticks).1[i] == (Plan {
                status: Status::Updating,
                spawn: false,
                reaped: false,
            }),
    decreases ticks.len(),
{
    if ticks.len() > 0 {
        let front = ticks.drop_last();
        assert forall|i: int| 0 <= i < front.len() implies !(#[trigger] front[i]).1 by {
            assert(front[i] == ticks[i]);
        }
        lemma_stalled_refresh(s, front);
        assert(!ticks[ticks.len() - 1].1);
    }
}

} // verus!
