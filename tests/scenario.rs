use log_dashboard::producer::{initial_stats, seed_entries};
use log_dashboard::render::{Area, DashboardState, KeyEvent, LoopState, RenderLoop};
use log_dashboard::shared_log::SharedLog;

#[test]
fn three_periods_then_quit() {
    let log = SharedLog::new(seed_entries());
    let mut rl = RenderLoop::new(DashboardState::new(initial_stats()));
    let screen = Area { x: 0, y: 0, width: 80, height: 24 };
    for _ in 0..3 {
        log.produce();
        assert!(rl.plan_frame(&log, screen).is_some());
        rl.handle_poll(None);
    }
    assert_eq!(log.len(), 6);
    let w = log.visible_window(2);
    assert_eq!(w.len(), 2);
    let all = log.visible_window(6);
    assert_eq!(all[..3].to_vec(), seed_entries());
    assert_eq!(w, all[4..].to_vec());
    for e in &w {
        assert!(e.starts_with("Additional log message at "));
    }
    let mut cycles = 0;
    rl.handle_poll(Some(KeyEvent::Char('q')));
    while rl.plan_frame(&log, screen).is_some() {
        cycles += 1;
        rl.handle_poll(None);
    }
    assert!(cycles <= 1);
    assert_eq!(rl.state(), LoopState::Terminated);
}
