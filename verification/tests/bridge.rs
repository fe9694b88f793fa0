use tachyon::bridge::wait_out;
use tachyon::bridge::WaitPlan;
use tachyon::bridge::WaitStep;

#[test]
fn backoff_starts_small_and_doubles_to_the_cap() {
    let mut plan = WaitPlan::new();
    assert_eq!(plan.step(false), WaitStep::Sleep(10));
    assert_eq!(plan.step(false), WaitStep::Sleep(20));
    assert_eq!(plan.step(false), WaitStep::Sleep(40));
    assert_eq!(plan.step(false), WaitStep::Sleep(80));
    let mut last = 80;
    loop {
        match plan.step(false) {
            WaitStep::Sleep(d) => {
                assert!(d >= last);
                assert!(d <= 2_000);
                last = d;
            }
            WaitStep::TimedOut => break,
            WaitStep::Ready => unreachable!(),
        }
    }
    assert_eq!(last, 2_000);
}

#[test]
fn readiness_stops_the_wait_at_once() {
    let mut plan = WaitPlan::new();
    assert_eq!(plan.step(true), WaitStep::Ready);
    plan.step(false);
    assert_eq!(plan.step(true), WaitStep::Ready);
}

#[test]
fn wait_is_bounded() {
    let mut plan = WaitPlan::new();
    wait_out(&mut plan);
    assert!(plan.elapsed_micros >= 100_000);
    assert!(plan.elapsed_micros <= 102_000);
}
