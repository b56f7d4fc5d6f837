use teledash::scheduler::{
    Key, KeyEvent, KeyKind, SchedulerState, TelemetryScheduler, POLL_INTERVAL_MS,
    RENDER_INTERVAL_MS,
};
use teledash::TelemetrySnapshot;

fn snapshot_with_freq(centi_ghz: u64) -> TelemetrySnapshot {
    TelemetrySnapshot {
        per_core_usage: vec![10, 20],
        cpu_temp: 55,
        gpu_temp: Some(40),
        mem_total_mb: 16000,
        mem_used_mb: 8000,
        freq_cur_centi_ghz: centi_ghz,
        freq_max_centi_ghz: 480,
        fan_rpm: vec![1200, 1300],
    }
}

#[test]
fn cadences_over_a_simulated_second() {
    let mut s = TelemetryScheduler::new(0);
    let mut renders = 0u32;
    let mut polls = 0u32;
    for t in 1u64..=1000 {
        let o = s.tick(t, Some(snapshot_with_freq(300)), None);
        if o.rendered {
            renders += 1;
        }
        if o.polled {
            polls += 1;
        }
    }
    assert!(renders >= 29, "expected about 30 renders, got {}", renders);
    assert_eq!(polls, 5);
    assert_eq!(POLL_INTERVAL_MS, 200);
    assert_eq!(RENDER_INTERVAL_MS, 33);
}

#[test]
fn failed_poll_keeps_previous_snapshot_and_marks_it_stale() {
    let mut s = TelemetryScheduler::new(0);
    let o = s.tick(200, Some(snapshot_with_freq(310)), None);
    assert!(o.polled);
    assert!(!s.stale);
    assert_eq!(s.snapshot.freq_cur_centi_ghz, 310);

    let o = s.tick(400, None, None);
    assert!(o.polled);
    assert!(s.stale);
    // The snapshot the next render tick uses is the previous one.
    assert_eq!(s.snapshot.freq_cur_centi_ghz, 310);
    assert_eq!(s.snapshot.cpu_temp, 55);
    // The chart was not fed by the failed poll.
    assert_eq!(s.window.len(), 1);
    assert_eq!(s.state, SchedulerState::Running);
}

#[test]
fn successful_polls_feed_the_frequency_chart() {
    let mut s = TelemetryScheduler::new(0);
    s.tick(200, Some(snapshot_with_freq(300)), None);
    s.tick(400, Some(snapshot_with_freq(320)), None);
    assert_eq!(s.window.len(), 2);
    assert_eq!(s.window.sample_at(0).y, 300);
    assert_eq!(s.window.sample_at(1).y, 320);
    assert_eq!(s.window.domain(), (0, 2));
}

#[test]
fn nothing_is_due_before_its_interval() {
    let mut s = TelemetryScheduler::new(0);
    let o = s.tick(32, None, None);
    assert!(!o.polled);
    assert!(!o.rendered);
    let o = s.tick(33, None, None);
    assert!(!o.polled);
    assert!(o.rendered);
    let o = s.tick(199, None, None);
    assert!(!o.polled);
    let o = s.tick(200, Some(snapshot_with_freq(300)), None);
    assert!(o.polled);
}

#[test]
fn quit_key_press_requests_exit() {
    let mut s = TelemetryScheduler::new(0);
    assert!(!s.is_exiting());
    s.tick(1, None, Some(KeyEvent { key: Key::Quit, kind: KeyKind::Press }));
    assert!(s.is_exiting());
    assert_eq!(s.state, SchedulerState::Exiting);
}

#[test]
fn quit_key_release_is_ignored() {
    let mut s = TelemetryScheduler::new(0);
    s.tick(1, None, Some(KeyEvent { key: Key::Quit, kind: KeyKind::Release }));
    assert!(!s.is_exiting());
    s.tick(2, None, Some(KeyEvent { key: Key::Quit, kind: KeyKind::Repeat }));
    assert!(!s.is_exiting());
}

#[test]
fn arrow_presses_drive_the_counter() {
    let mut s = TelemetryScheduler::new(0);
    s.tick(1, None, Some(KeyEvent { key: Key::Up, kind: KeyKind::Press }));
    s.tick(2, None, Some(KeyEvent { key: Key::Up, kind: KeyKind::Press }));
    assert_eq!(s.counter.count, 2);
    s.tick(3, None, Some(KeyEvent { key: Key::Down, kind: KeyKind::Press }));
    assert_eq!(s.counter.count, 1);
    s.tick(4, None, Some(KeyEvent { key: Key::Other, kind: KeyKind::Press }));
    assert_eq!(s.counter.count, 1);
}

#[test]
fn poll_ignores_reading_when_not_due() {
    let mut s = TelemetryScheduler::new(0);
    let o = s.tick(100, Some(snapshot_with_freq(999)), None);
    assert!(!o.polled);
    assert!(s.stale);
    assert_eq!(s.window.len(), 0);
    assert_eq!(s.snapshot.freq_cur_centi_ghz, 0);
}
