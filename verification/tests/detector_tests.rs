use tennis::detector::Detector;
use tennis::detector::FsEvent;
use tennis::detector::DEFAULT_DEBOUNCE_MS;

fn write(p: &str) -> FsEvent {
    FsEvent::Write(p.to_string())
}

#[test]
fn hidden_paths_never_signal() {
    let mut d = Detector::with_default_window();
    assert!(!d.observe(&write("site/.git/HEAD"), 0));
    assert!(!d.observe(&FsEvent::Remove("site/.git/index".to_string()), 500));
    assert!(!d.observe(&FsEvent::Create(".cache/tmp".to_string()), 1000));
    assert!(!d.observe(
        &FsEvent::Rename(".a.swp".to_string(), ".b.swp".to_string()),
        1500,
    ));
    // the suppressed events left the debouncer untouched: a real change
    // still signals at once
    assert!(d.observe(&write("site/index.html"), 1501));
}

#[test]
fn rename_with_one_visible_side_signals() {
    let mut d = Detector::with_default_window();
    assert!(d.observe(
        &FsEvent::Rename(".index.html.swp".to_string(), "index.html".to_string()),
        0,
    ));
}

#[test]
fn burst_collapses_to_one_signal() {
    let mut d = Detector::new(200);
    let mut emitted = 0;
    for t in [1000, 1001, 1050, 1120, 1199] {
        if d.observe(&write("site/index.html"), t) {
            emitted += 1;
        }
    }
    assert_eq!(emitted, 1);
    // the next window signals again
    assert!(d.observe(&write("site/index.html"), 1200));
}

#[test]
fn irrelevant_events_do_not_signal() {
    let mut d = Detector::with_default_window();
    assert!(!d.observe(&FsEvent::Other, 0));
    assert!(d.observe(&write("a.txt"), 1));
}

#[test]
fn rescan_always_signals_once() {
    let mut d = Detector::new(200);
    assert!(d.observe(&write("a.txt"), 1000));
    // inside the window, a write stays quiet but a rescan must get through
    assert!(!d.observe(&write("a.txt"), 1050));
    assert!(d.observe(&FsEvent::Rescan, 1060));
}

#[test]
fn default_window_is_small() {
    assert_eq!(DEFAULT_DEBOUNCE_MS, 200);
    let d = Detector::with_default_window();
    let _ = d;
}
