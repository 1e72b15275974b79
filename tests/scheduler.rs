use e_ink_pi_dash::app::App;
use e_ink_pi_dash::schedule::{countdown_secs, JobSlot, Plan, Schedule, Status, PAINT_INTERVAL_MS};
use e_ink_pi_dash::shopify::{FetchError, Shopify, ShopifyData};
use e_ink_pi_dash::status::{push_decimal, status_text};
use e_ink_pi_dash::{DISPLAY_HEIGHT, DISPLAY_WIDTH};

fn figures(value: &str) -> ShopifyData {
    ShopifyData {
        today_sales: value.to_string(),
        monthly_sales: value.to_string(),
        today_visitors: value.to_string(),
        monthly_visitors: value.to_string(),
        today_orders: value.to_string(),
        monthly_orders: value.to_string(),
        current_active_sessions: value.to_string(),
    }
}

#[test]
fn countdown_rounds_down_and_adds_one() {
    assert_eq!(countdown_secs(10_000, 0), 11);
    assert_eq!(countdown_secs(10_000, 1), 10);
    assert_eq!(countdown_secs(10_000, 9_000), 2);
    assert_eq!(countdown_secs(10_000, 9_001), 1);
    assert_eq!(countdown_secs(10_000, 9_999), 1);
    assert_eq!(countdown_secs(1_500, 1_000), 1);
    assert_eq!(countdown_secs(u64::MAX, 0), u64::MAX / 1000 + 1);
}

#[test]
fn status_text_countdown_and_updating() {
    assert_eq!(status_text(Status::Countdown(11)), "Data refresh in 11 seconds...");
    assert_eq!(status_text(Status::Countdown(1)), "Data refresh in 1 seconds...");
    assert_eq!(status_text(Status::Updating), "Updating data...");
}

#[test]
fn decimal_rendering() {
    let mut s = String::from("x");
    push_decimal(&mut s, 0);
    assert_eq!(s, "x0");
    let mut s = String::new();
    push_decimal(&mut s, 1_234_567_890);
    assert_eq!(s, "1234567890");
    let mut s = String::new();
    push_decimal(&mut s, u64::MAX);
    assert_eq!(s, u64::MAX.to_string());
}

#[test]
fn new_schedule_deadlines() {
    let s = Schedule::new(1_000, 60_000);
    assert_eq!(s.next_paint, 1_500);
    assert_eq!(s.next_refresh, 61_000);
    assert_eq!(s.refresh_interval, 60_000);
    assert_eq!(s.job, JobSlot::Idle);
}

#[test]
fn idle_before_deadline_counts_down() {
    let mut s = Schedule::new(0, 10_000);
    let p = s.refresh(2_500, false);
    assert_eq!(p, Plan { status: Status::Countdown(8), spawn: false, reaped: false });
    assert_eq!(s, Schedule::new(0, 10_000));
    // a completion reported while nothing runs is ignored
    let p = s.refresh(2_500, true);
    assert_eq!(p, Plan { status: Status::Countdown(8), spawn: false, reaped: false });
}

#[test]
fn deadline_elapsed_spawns_one_job() {
    let mut s = Schedule::new(0, 10_000);
    let p = s.refresh(10_000, false);
    assert_eq!(p, Plan { status: Status::Updating, spawn: true, reaped: false });
    assert_eq!(s.job, JobSlot::InFlight);
    assert_eq!(s.next_refresh, 10_000);
}

#[test]
fn done_rearms_from_now() {
    let mut s = Schedule::new(0, 10_000);
    s.refresh(10_000, false);
    let p = s.refresh(17_300, true);
    assert_eq!(p, Plan { status: Status::Countdown(11), spawn: false, reaped: true });
    assert_eq!(s.next_refresh, 27_300);
    assert_eq!(s.job, JobSlot::Idle);
}

#[test]
fn zero_interval_respawns_after_done() {
    let mut s = Schedule::new(0, 0);
    let p = s.refresh(0, false);
    assert!(p.spawn);
    let p = s.refresh(500, true);
    assert_eq!(p, Plan { status: Status::Updating, spawn: true, reaped: true });
    assert_eq!(s.job, JobSlot::InFlight);
}

#[test]
fn end_tick_sleeps_to_deadline() {
    let mut s = Schedule::new(0, 10_000);
    assert_eq!(s.end_tick(120), 380);
    assert_eq!(s.next_paint, 1_000);
}

#[test]
fn end_tick_overrun_does_not_catch_up() {
    let mut s = Schedule::new(0, 10_000);
    assert_eq!(s.end_tick(700), 0);
    assert_eq!(s.next_paint, 1_000);
    assert_eq!(s.end_tick(1_000), 0);
    assert_eq!(s.next_paint, 1_500);
}

#[test]
fn paint_cadence_has_no_drift() {
    let mut s = Schedule::new(0, 1_000_000);
    let mut now: u64 = 0;
    let mut commits = Vec::new();
    for _ in 0..20 {
        now += 137; // work of this tick
        commits.push(now);
        let sleep = s.end_tick(now);
        now += sleep;
    }
    for k in 1..commits.len() {
        assert_eq!(commits[k] - commits[k - 1], PAINT_INTERVAL_MS);
    }
    assert_eq!(now, 20 * PAINT_INTERVAL_MS);
    assert_eq!(s.next_paint, 21 * PAINT_INTERVAL_MS);
}

#[test]
fn at_most_one_job_while_deadline_past() {
    let mut s = Schedule::new(0, 1_000);
    let mut alive = 0;
    let mut spawns = 0;
    for k in 0..200u64 {
        let done = alive == 1 && k % 50 == 49;
        let p = s.refresh(k * 500, done);
        if p.reaped {
            alive -= 1;
        }
        if p.spawn {
            alive += 1;
            spawns += 1;
        }
        assert!(alive <= 1);
        assert_eq!(alive == 1, s.job == JobSlot::InFlight);
    }
    assert_eq!(spawns, 4);
}

#[test]
fn exactly_one_status_per_frame() {
    let mut s = Schedule::new(0, 3_000);
    for k in 0..40u64 {
        let p = s.refresh(k * 500, k % 7 == 0);
        match p.status {
            Status::Updating => assert_eq!(s.job, JobSlot::InFlight),
            Status::Countdown(n) => {
                assert_eq!(s.job, JobSlot::Idle);
                assert!(n >= 1);
            }
        }
    }
}

#[test]
fn snapshot_replaced_whole_on_success() {
    let mut app = App::new(Shopify::new("shop-key".to_string()), 1_000);
    app.tick(0, None);
    let p = app.tick(1_000, None);
    assert!(p.spawn);
    let p = app.tick(1_500, None);
    assert_eq!(p.status, Status::Updating);
    assert_eq!(app.shopify_client().data.today_sales, "");
    let p = app.tick(2_000, Some(Ok(figures("42"))));
    assert!(p.reaped);
    let d = &app.shopify_client().data;
    assert_eq!(d.today_sales, "42");
    assert_eq!(d.monthly_sales, "42");
    assert_eq!(d.today_visitors, "42");
    assert_eq!(d.monthly_visitors, "42");
    assert_eq!(d.today_orders, "42");
    assert_eq!(d.monthly_orders, "42");
    assert_eq!(d.current_active_sessions, "42");
    assert!(!app.refresh_failed());
    assert_eq!(app.schedule().next_refresh, 3_000);
}

#[test]
fn failed_refresh_keeps_stale_snapshot() {
    let mut app = App::new(Shopify::new("key".to_string()), 1_000);
    app.tick(1_000, None);
    app.tick(1_500, Some(Ok(figures("7"))));
    app.tick(2_500, None);
    let p = app.tick(3_000, Some(Err(FetchError { reason: "timeout".to_string() })));
    assert!(p.reaped);
    assert_eq!(app.shopify_client().data.today_orders, "7");
    assert!(app.refresh_failed());
    assert_eq!(app.schedule().next_refresh, 4_000);
    assert_eq!(app.shopify_client().api_key, "key");
}

fn run_scenario(refresh_ms: u64, fetch_ms: Option<u64>, until: u64) -> (App, Vec<Status>, u32) {
    let mut app = App::new(Shopify::new("key".to_string()), refresh_ms);
    let mut statuses = Vec::new();
    let mut spawns = 0;
    let mut spawned_at: Option<u64> = None;
    let mut now: u64 = 0;
    while now < until {
        let finished = match (spawned_at, fetch_ms) {
            (Some(t), Some(f)) if now >= t + f => {
                spawned_at = None;
                Some(Ok(figures("fresh")))
            }
            _ => None,
        };
        let plan = app.tick(now, finished);
        if plan.spawn {
            spawns += 1;
            spawned_at = Some(now);
        }
        statuses.push(plan.status);
        now += app.end_tick(now);
    }
    (app, statuses, spawns)
}

#[test]
fn scenario_fetch_takes_five_seconds() {
    let (app, statuses, spawns) = run_scenario(10_000, Some(5_000), 20_000);
    assert_eq!(spawns, 1);
    assert_eq!(statuses.len(), 40);
    let updating = statuses.iter().filter(|s| **s == Status::Updating).count();
    assert_eq!(updating, 10);
    assert_eq!(statuses[19], Status::Countdown(1));
    assert_eq!(statuses[20], Status::Updating);
    assert_eq!(statuses[29], Status::Updating);
    assert_eq!(statuses[30], Status::Countdown(11));
    assert_eq!(app.schedule().next_refresh, 25_000);
    assert_eq!(app.schedule().job, JobSlot::Idle);
    assert_eq!(app.shopify_client().data.today_sales, "fresh");
}

#[test]
fn scenario_fetch_never_completes() {
    let (app, statuses, spawns) = run_scenario(10_000, None, 120_000);
    assert_eq!(spawns, 1);
    assert!(statuses[20..].iter().all(|s| *s == Status::Updating));
    assert_eq!(app.schedule().next_refresh, 10_000);
    assert_eq!(app.schedule().job, JobSlot::InFlight);
}

#[test]
fn shopify_client_starts_blank_and_refreshes() {
    let mut c = Shopify::new("abc".to_string());
    assert_eq!(c.api_key, "abc");
    assert_eq!(c.data.current_active_sessions, "");
    c.data = figures("9");
    assert!(c.get_new_data().is_ok());
    assert_eq!(c.data.today_sales, "");
    assert_eq!(c.data.monthly_orders, "");
    assert_eq!(c.api_key, "abc");
    let d = ShopifyData::default();
    assert_eq!(d.today_visitors, "");
}

#[test]
fn panel_resolution() {
    assert_eq!((DISPLAY_WIDTH, DISPLAY_HEIGHT), (400, 300));
}
