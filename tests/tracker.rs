use keylogger::input::{KeyEvent, KeyKind};
use keylogger::tracker::{KeyTracker, LogEntry, Symbol};

const A: u16 = 30;
const B: u16 = 48;
const Z: u16 = 44;

fn press(code: u16) -> KeyEvent {
    KeyEvent { code, kind: KeyKind::Press }
}

fn release(code: u16) -> KeyEvent {
    KeyEvent { code, kind: KeyKind::Release }
}

fn feed_all(t: &mut KeyTracker, evs: &[KeyEvent]) -> Vec<LogEntry> {
    let mut out = Vec::new();
    for ev in evs {
        out.extend(t.feed(*ev));
    }
    out
}

fn lines(entries: &[LogEntry]) -> Vec<String> {
    entries.iter().map(|e| e.render()).collect()
}

#[test]
fn press_then_release_is_one_tapped_entry() {
    let mut t = KeyTracker::new();
    let out = feed_all(&mut t, &[press(A), release(A)]);
    assert_eq!(lines(&out), vec!["±a\n".to_string()]);
    assert!(t.held().is_empty());
    assert!(!t.is_pending());
}

#[test]
fn press_alone_logs_nothing() {
    let mut t = KeyTracker::new();
    let out = t.feed(press(A));
    assert!(out.is_empty());
    assert_eq!(t.held(), &[A]);
    assert!(t.is_pending());
}

#[test]
fn nested_press_release() {
    let mut t = KeyTracker::new();
    let out = feed_all(&mut t, &[press(A), press(B), release(B), release(A)]);
    assert_eq!(
        out,
        vec![
            LogEntry { symbol: Symbol::Pressed, code: A },
            LogEntry { symbol: Symbol::Tapped, code: B },
            LogEntry { symbol: Symbol::Released, code: A },
        ]
    );
    assert_eq!(lines(&out), vec!["+a\n", "±b\n", "-a\n"]);
}

#[test]
fn out_of_order_release() {
    let mut t = KeyTracker::new();
    let out = feed_all(&mut t, &[press(A), press(B), release(A), release(B)]);
    assert_eq!(lines(&out), vec!["+a\n", "+b\n", "-a\n", "-b\n"]);
    assert!(t.held().is_empty());
    assert!(!t.is_pending());
}

#[test]
fn out_of_order_release_keeps_order_of_the_rest() {
    let mut t = KeyTracker::new();
    feed_all(&mut t, &[press(1), press(2), press(3)]);
    let out = t.feed(release(2));
    assert_eq!(
        out,
        vec![
            LogEntry { symbol: Symbol::Pressed, code: 3 },
            LogEntry { symbol: Symbol::Released, code: 2 },
        ]
    );
    assert_eq!(t.held(), &[1, 3]);
    assert!(!t.is_pending());
}

#[test]
fn orphan_release() {
    let mut t = KeyTracker::new();
    let out = t.feed(release(Z));
    assert_eq!(lines(&out), vec!["?z\n"]);
    assert!(t.held().is_empty());
}

#[test]
fn orphan_release_leaves_held_keys() {
    let mut t = KeyTracker::new();
    feed_all(&mut t, &[press(A), press(B)]);
    let out = t.feed(release(Z));
    assert_eq!(out, vec![LogEntry { symbol: Symbol::Orphan, code: Z }]);
    assert_eq!(t.held(), &[A, B]);
    assert!(t.is_pending());
}

#[test]
fn orphan_release_of_unknown_code() {
    let mut t = KeyTracker::new();
    let out = t.feed(release(500));
    assert_eq!(lines(&out), vec!["?<UK>\n"]);
}

#[test]
fn balanced_sequence_drains() {
    let mut t = KeyTracker::new();
    let out = feed_all(
        &mut t,
        &[press(1), press(2), press(3), press(4), release(3), release(1), release(4), release(2)],
    );
    assert!(out.iter().all(|e| e.symbol != Symbol::Orphan));
    assert!(t.held().is_empty());
    assert!(!t.is_pending());
    assert!(t.feed(press(5)).is_empty());
    let mut t = KeyTracker::new();
    feed_all(&mut t, &[press(1), press(2), release(2), release(1)]);
    assert_eq!(t.feed(release(1)), vec![LogEntry { symbol: Symbol::Orphan, code: 1 }]);
}

#[test]
fn release_after_flushed_press_is_plain() {
    let mut t = KeyTracker::new();
    let out = feed_all(&mut t, &[press(A), press(B), release(A)]);
    assert_eq!(lines(&out), vec!["+a\n", "+b\n", "-a\n"]);
    let out = t.feed(release(B));
    assert_eq!(out, vec![LogEntry { symbol: Symbol::Released, code: B }]);
}

#[test]
fn repeated_press_is_not_deduplicated() {
    let mut t = KeyTracker::new();
    let out = feed_all(&mut t, &[press(A), press(A)]);
    assert_eq!(out, vec![LogEntry { symbol: Symbol::Pressed, code: A }]);
    assert_eq!(t.held(), &[A, A]);
    // The first occurrence is released, which is not the top one.
    let out = t.feed(release(A));
    assert_eq!(lines(&out), vec!["+a\n", "-a\n"]);
    assert_eq!(t.held(), &[A]);
    let out = t.feed(release(A));
    assert_eq!(lines(&out), vec!["-a\n"]);
    assert!(t.held().is_empty());
}

#[test]
fn adjacent_entries_of_one_event_differ() {
    let mut t = KeyTracker::new();
    feed_all(&mut t, &[press(A), press(B), press(Z)]);
    let out = t.feed(release(A));
    assert_eq!(out.len(), 2);
    assert_ne!(out[0], out[1]);
    let out = t.feed(press(A));
    assert!(out.len() <= 1);
}

#[test]
fn press_release_pair_entries_differ() {
    let mut t = KeyTracker::new();
    feed_all(&mut t, &[press(A), press(B)]);
    let mut out = t.feed(press(Z));
    out.extend(t.feed(release(A)));
    assert_eq!(lines(&out), vec!["+b\n", "+z\n", "-a\n"]);
    for w in out.windows(2) {
        assert_ne!(w[0], w[1]);
    }
}

#[test]
fn entry_parts() {
    let e = LogEntry { symbol: Symbol::Tapped, code: 28 };
    assert_eq!(e.symbol_str(), "±");
    assert_eq!(e.label(), "<Enter>");
    assert_eq!(e.render(), "±<Enter>\n");
    let e = LogEntry { symbol: Symbol::Released, code: 42 };
    assert_eq!(e.render(), "-<LShift>\n");
    let e = LogEntry { symbol: Symbol::Pressed, code: 43 };
    assert_eq!(e.render(), "+\\\n");
}
