use slime_watcher::{Bucket, DataFrame, EventCounter, FlushAction, FlushScheduler};

fn frame(m: i64, lc: u64, rc: u64, mc: u64, ks: u64, mm: u64) -> DataFrame {
    DataFrame { m, lc, rc, mc, ks, mm }
}

fn busy_counter() -> EventCounter {
    let mut c = EventCounter::new();
    c.set_epoch_minute(100);
    for _ in 0..3 {
        c.record(Bucket::LeftClick);
    }
    for _ in 0..2 {
        c.record(Bucket::Keystroke);
    }
    for _ in 0..11 {
        c.record(Bucket::MouseMove);
    }
    c
}

#[test]
fn tick_stamps_and_snapshots() {
    let mut c = busy_counter();
    let mut s = FlushScheduler::new();
    assert!(!s.is_persisting());
    assert_eq!(s.on_tick(&mut c, 101), FlushAction::Save(frame(101, 3, 0, 0, 2, 11)));
    assert!(s.is_persisting());
    assert_eq!(c.snapshot(), frame(101, 3, 0, 0, 2, 11));
}

#[test]
fn overlapping_tick_is_skipped() {
    let mut c = busy_counter();
    let mut s = FlushScheduler::new();
    let _ = s.on_tick(&mut c, 101);
    c.record(Bucket::RightClick);
    assert_eq!(s.on_tick(&mut c, 102), FlushAction::Skip);
    assert_eq!(c.snapshot(), frame(101, 3, 1, 0, 2, 11));
}

#[test]
fn successful_flush_then_empty_tick() {
    let mut c = busy_counter();
    let mut s = FlushScheduler::new();
    assert_eq!(s.on_tick(&mut c, 101), FlushAction::Save(frame(101, 3, 0, 0, 2, 11)));
    s.on_save_result(&mut c, true, 101);
    assert!(!s.is_persisting());
    assert_eq!(s.on_tick(&mut c, 102), FlushAction::Save(frame(102, 0, 0, 0, 0, 0)));
}

#[test]
fn failed_flush_then_one_more_click() {
    let mut c = busy_counter();
    let mut s = FlushScheduler::new();
    assert_eq!(s.on_tick(&mut c, 101), FlushAction::Save(frame(101, 3, 0, 0, 2, 11)));
    s.on_save_result(&mut c, false, 101);
    c.record(Bucket::LeftClick);
    assert_eq!(s.on_tick(&mut c, 102), FlushAction::Save(frame(102, 4, 0, 0, 2, 11)));
}

#[test]
fn retry_after_failure_sends_same_counts() {
    let mut c = busy_counter();
    let mut s = FlushScheduler::new();
    let first = s.on_tick(&mut c, 101);
    s.on_save_result(&mut c, false, 101);
    let second = s.on_tick(&mut c, 102);
    match (first, second) {
        (FlushAction::Save(a), FlushAction::Save(b)) => {
            assert_eq!((a.lc, a.rc, a.mc, a.ks, a.mm), (b.lc, b.rc, b.mc, b.ks, b.mm));
            assert!(b.m >= a.m);
        }
        _ => panic!("both ticks should hand out a snapshot"),
    }
    s.on_save_result(&mut c, true, 102);
    assert_eq!(c.snapshot(), frame(102, 0, 0, 0, 0, 0));
}

#[test]
fn result_without_flush_changes_nothing() {
    let mut c = busy_counter();
    let mut s = FlushScheduler::new();
    s.on_save_result(&mut c, true, 200);
    assert_eq!(c.snapshot(), frame(100, 3, 0, 0, 2, 11));
}
