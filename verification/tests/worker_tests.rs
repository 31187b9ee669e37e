use fluid_lab::control::{Flow, Request, WorkerControl, POLL_NANOS};
use fluid_lab::stepping::{plan_attempt, StepCounters, MAX_ATTEMPTS, SECOND_ORDER_ATTEMPTS};

#[test]
fn attempts_fall_back_to_first_order_then_give_up() {
    for a in 0..SECOND_ORDER_ATTEMPTS {
        assert_eq!(plan_attempt(a), Some(true));
    }
    for a in SECOND_ORDER_ATTEMPTS..MAX_ATTEMPTS {
        assert_eq!(plan_attempt(a), Some(false));
    }
    assert_eq!(plan_attempt(12), None);
    assert_eq!(plan_attempt(40), None);
}

#[test]
fn counters_track_rejections_and_fallbacks() {
    let mut c = StepCounters::new();
    for _ in 0..5 {
        c.record_rejection();
    }
    c.record_acceptance(plan_attempt(5).unwrap());
    c.record_acceptance(plan_attempt(0).unwrap());
    assert_eq!(c, StepCounters { steps: 2, rejected: 5, first_order_steps: 1 });
}

#[test]
fn paused_worker_waits_and_single_step_stays_paused() {
    let mut w = WorkerControl::new(true);
    assert!(w.publish);
    assert_eq!(w.mark_published(), 1);
    w.begin_iteration();
    assert!(!w.should_step(true));
    assert_eq!(w.poll_wait(1_000), POLL_NANOS);
    assert_eq!(w.apply(Request::Step), Flow::Continue(false));
    assert!(w.paused && w.should_step(false));
    w.record_step(Ok(()));
    assert!(w.publish);
    assert_eq!(w.mark_published(), 2);
    w.begin_iteration();
    assert!(!w.should_step(true));
}

#[test]
fn heat_and_export_publish_notices() {
    let mut w = WorkerControl::new(false);
    w.mark_published();
    assert_eq!(w.apply(Request::Heat), Flow::Continue(false));
    assert!(w.publish);
    assert_eq!(
        w.notice.as_deref(),
        Some("Energy deposited · source included in conservation budget")
    );
    w.apply(Request::Exported(Ok("exports/a.vtk".to_string())));
    assert_eq!(w.notice.as_deref(), Some("Saved exports/a.vtk"));
    w.apply(Request::Exported(Err("disk full".to_string())));
    assert_eq!(w.notice.as_deref(), Some("Export failed: disk full"));
}

#[test]
fn an_error_stops_the_worker_until_reset() {
    let mut w = WorkerControl::new(false);
    assert!(w.should_step(true));
    assert!(!w.should_step(false));
    w.record_step(Err("no admissible update".to_string()));
    assert!(w.paused);
    assert_eq!(w.error.as_deref(), Some("no admissible update"));
    assert_eq!(w.apply(Request::Pause(false)), Flow::Continue(true));
    assert!(!w.should_step(true));
    assert_eq!(w.apply(Request::Reset), Flow::Continue(true));
    assert!(w.error.is_none() && w.notice.is_none() && w.publish);
    assert!(w.should_step(true));
    assert_eq!(w.poll_wait(1_000), 1_000);
    assert_eq!(w.poll_wait(90_000_000), POLL_NANOS);
    assert_eq!(w.apply(Request::Rate), Flow::Continue(true));
    assert_eq!(w.apply(Request::Quit), Flow::Stop);
}
