use vstd::prelude::*;
use crate::schedule::{paint_step, refresh_spec, wake_time, Plan, Schedule, PAINT_INTERVAL_MS};
use crate::shopify::{FetchError, Shopify, ShopifyData};

verus! {

/// The dashboard's state between frames: the data source with the figures on show,
/// and the paint and refresh deadlines. Times are milliseconds since the loop
/// started.
pub struct App {
    shopify_client: Shopify,
    schedule: Schedule,
    refresh_failed: bool,
}

impl App {
    /// The client, whose `data` are the figures on show.
    pub closed spec fn client(&self) -> Shopify {
        self.shopify_client
    }

    /// The deadlines and the refresh slot.
    pub closed spec fn timing(&self) -> Schedule {
        self.schedule
    }

    /// Whether the last refresh that finished failed, so the figures on show are stale.
    pub closed spec fn stale(&self) -> bool {
        self.refresh_failed
    }

    /// A dashboard whose loop starts at time zero: the first frame is due after one
    /// paint interval, the first refresh after `update_interval` milliseconds.
    pub fn new(shopify_client: Shopify, update_interval: u64) -> (r: App)
        ensures
            r.client() == shopify_client,
            r.timing() == (Schedule {
                next_paint: PAINT_INTERVAL_MS,
                next_refresh: update_interval,
                refresh_interval: update_interval,
                job: crate::schedule::JobSlot::Idle,
            }),
            !r.stale(),
    {
        App { shopify_client, schedule: Schedule::new(0, update_interval), refresh_failed: false }
    }

    /// The refresh step of the frame at `now`. `finished` holds the outcome of the
    /// refresh in flight once it has finished, and is `None` while it runs or when none
    /// runs. A finished refresh replaces the figures on show as a whole when it
    /// succeeded and leaves them, marked stale, when it failed; nothing else changes
    /// them.
    pub fn tick(&mut self, now: u64, finished: Option<Result<ShopifyData, FetchError>>) -> (plan:
        Plan)
        requires
            old(self).timing().job == crate::schedule::JobSlot::InFlight && finished is Some
                ==> now + old(self).timing().refresh_interval <= u64::MAX,
        ensures
            (final(self).timing(), plan) == refresh_spec(old(self).timing(), now, finished is Some),
            final(self).client().api_key == old(self).client().api_key,
            plan.reaped ==> match finished {
                Some(Ok(d)) => final(self).client().data == d && !final(self).stale(),
                _ => final(self).client().data == old(self).client().data && final(self).stale(),
            },
            !plan.reaped ==> final(self).client().data == old(self).client().data
                && final(self).stale() == old(self).stale(),
    {
        let done = finished.is_some();
        let plan = self.schedule.refresh(now, done);
        if plan.reaped {
            match finished {
                Some(Ok(d)) => {
                    self.shopify_client.data = d;
                    self.refresh_failed = false;
                },
                _ => {
                    self.refresh_failed = true;
                },
            }
        }
        plan
    }

    /// Ends the frame whose work finished at `now`: returns how long to sleep before
    /// the next one and moves the paint deadline on by exactly one interval.
    pub fn end_tick(&mut self, now: u64) -> (sleep_ms: u64)
        requires
            old(self).timing().next_paint + PAINT_INTERVAL_MS <= u64::MAX,
        ensures
            final(self).timing() == paint_step(old(self).timing()),
            final(self).client() == old(self).client(),
            final(self).stale() == old(self).stale(),
            now + sleep_ms == wake_time(old(self).timing().next_paint as int, now as int),
    {
        self.schedule.end_tick(now)
    }

    /// The deadlines and the refresh slot.
    pub fn schedule(&self) -> (r: Schedule)
        ensures
            r == self.timing(),
    {
        self.schedule
    }

    /// The client, whose `data` are the figures on show.
    pub fn shopify_client(&self) -> (r: &Shopify)
        ensures
            *r == self.client(),
    {
        &self.shopify_client
    }

    /// Whether the figures on show are stale because the last refresh failed.
    pub fn refresh_failed(&self) -> (r: bool)
        ensures
            r == self.stale(),
    {
        self.refresh_failed
    }
}

} // verus!
