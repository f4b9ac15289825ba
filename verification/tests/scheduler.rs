use egui_layer_shell::clock::saturate_nanos;
use egui_layer_shell::scheduler::wake_after;
use egui_layer_shell::scheduler::RepaintScheduler;

#[test]
fn new_scheduler_is_idle() {
    let scheduler = RepaintScheduler::new();
    assert_eq!(scheduler, RepaintScheduler::Idle);
    assert!(scheduler.is_idle());
}

#[test]
fn request_makes_pending() {
    let mut scheduler = RepaintScheduler::new();
    scheduler.request(1_000);
    assert_eq!(scheduler, RepaintScheduler::Pending(1_000));
    assert!(!scheduler.is_idle());
}

#[test]
fn later_request_overwrites_without_merging() {
    let mut scheduler = RepaintScheduler::new();
    scheduler.request(100);
    scheduler.request(900);
    assert_eq!(scheduler, RepaintScheduler::Pending(900));
    scheduler.request(50);
    assert_eq!(scheduler, RepaintScheduler::Pending(50));
}

#[test]
fn clear_returns_to_idle() {
    let mut scheduler = RepaintScheduler::Pending(7);
    scheduler.clear();
    assert_eq!(scheduler, RepaintScheduler::Idle);
    scheduler.clear();
    assert_eq!(scheduler, RepaintScheduler::Idle);
}

#[test]
fn idle_is_never_due() {
    let scheduler = RepaintScheduler::Idle;
    assert!(!scheduler.is_due(0));
    assert!(!scheduler.is_due(u64::MAX));
}

#[test]
fn pending_is_due_from_its_time_on() {
    let scheduler = RepaintScheduler::Pending(500);
    assert!(!scheduler.is_due(0));
    assert!(!scheduler.is_due(499));
    assert!(scheduler.is_due(500));
    assert!(scheduler.is_due(501));
    assert!(scheduler.is_due(u64::MAX));
}

#[test]
fn timeout_is_none_without_permission() {
    assert_eq!(RepaintScheduler::Pending(500).timeout_until(100, false), None);
    assert_eq!(RepaintScheduler::Pending(50).timeout_until(100, false), None);
    assert_eq!(RepaintScheduler::Idle.timeout_until(100, false), None);
}

#[test]
fn timeout_is_none_when_idle() {
    assert_eq!(RepaintScheduler::Idle.timeout_until(0, true), None);
    assert_eq!(RepaintScheduler::Idle.timeout_until(123, true), None);
}

#[test]
fn timeout_is_time_left() {
    assert_eq!(RepaintScheduler::Pending(500).timeout_until(100, true), Some(400));
    assert_eq!(RepaintScheduler::Pending(50_000_000).timeout_until(0, true), Some(50_000_000));
    assert_eq!(RepaintScheduler::Pending(u64::MAX).timeout_until(1, true), Some(u64::MAX - 1));
}

#[test]
fn timeout_is_zero_once_passed() {
    assert_eq!(RepaintScheduler::Pending(500).timeout_until(500, true), Some(0));
    assert_eq!(RepaintScheduler::Pending(500).timeout_until(501, true), Some(0));
    assert_eq!(RepaintScheduler::Pending(0).timeout_until(u64::MAX, true), Some(0));
}

#[test]
fn wake_after_adds_delay() {
    assert_eq!(wake_after(0, 0), 0);
    assert_eq!(wake_after(1_000, 50_000_000), 50_001_000);
    assert_eq!(wake_after(u64::MAX - 1, 1), u64::MAX);
}

#[test]
fn wake_after_saturates() {
    assert_eq!(wake_after(u64::MAX, 1), u64::MAX);
    assert_eq!(wake_after(2, u64::MAX), u64::MAX);
    assert_eq!(wake_after(u64::MAX, u64::MAX), u64::MAX);
}

#[test]
fn saturate_nanos_keeps_what_fits() {
    assert_eq!(saturate_nanos(0), 0);
    assert_eq!(saturate_nanos(1_500_000_000), 1_500_000_000);
    assert_eq!(saturate_nanos(u64::MAX as u128), u64::MAX);
}

#[test]
fn saturate_nanos_caps_what_does_not_fit() {
    assert_eq!(saturate_nanos(u64::MAX as u128 + 1), u64::MAX);
    assert_eq!(saturate_nanos(u128::MAX), u64::MAX);
}
