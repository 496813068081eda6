use widevine::timer::{Timer, TimerManager};

#[test]
fn timer_fires_once_and_not_before_its_time() {
    let mut timers = TimerManager::new();
    let context: usize = 0x5eed;
    timers.new_timer(1_000, 50, context);
    assert!(timers.try_iter(1_000).is_empty());
    assert!(timers.try_iter(1_049).is_empty());
    assert_eq!(timers.len(), 1);
    assert_eq!(timers.try_iter(1_050), vec![Timer { delay: 50, context }]);
    assert!(timers.try_iter(1_050).is_empty());
    assert!(timers.try_iter(9_999).is_empty());
    assert_eq!(timers.len(), 0);
}

#[test]
fn drain_of_an_empty_manager_is_empty() {
    let mut timers = TimerManager::default();
    assert!(timers.try_iter(0).is_empty());
    assert!(timers.try_iter(u64::MAX).is_empty());
}

#[test]
fn timers_come_out_by_expiry_time() {
    let mut timers = TimerManager::new();
    timers.new_timer(0, 300, 3);
    timers.new_timer(0, 100, 1);
    timers.new_timer(0, 200, 2);
    assert_eq!(
        timers.try_iter(250),
        vec![Timer { delay: 100, context: 1 }, Timer { delay: 200, context: 2 }]
    );
    assert_eq!(timers.len(), 1);
    assert_eq!(timers.try_iter(300), vec![Timer { delay: 300, context: 3 }]);
}

#[test]
fn timers_with_one_expiry_come_out_in_the_order_they_were_started() {
    let mut timers = TimerManager::new();
    timers.new_timer(10, 40, 1);
    timers.new_timer(20, 30, 2);
    timers.new_timer(50, 0, 3);
    assert_eq!(
        timers.try_iter(50),
        vec![
            Timer { delay: 40, context: 1 },
            Timer { delay: 30, context: 2 },
            Timer { delay: 0, context: 3 },
        ]
    );
}

#[test]
fn timer_with_no_delay_is_due_at_once() {
    let mut timers = TimerManager::new();
    timers.new_timer(77, 0, 8);
    assert_eq!(timers.try_iter(77), vec![Timer { delay: 0, context: 8 }]);
}

#[test]
fn timer_due_at_the_end_of_the_clock_fires_there() {
    let mut timers = TimerManager::new();
    timers.new_timer(u64::MAX - 5, 5, 4);
    assert!(timers.try_iter(u64::MAX - 1).is_empty());
    assert_eq!(timers.try_iter(u64::MAX), vec![Timer { delay: 5, context: 4 }]);
}

#[test]
fn timer_due_beyond_the_end_of_the_clock_never_fires() {
    let mut timers = TimerManager::new();
    timers.new_timer(u64::MAX - 5, 10, 4);
    timers.new_timer(u64::MAX, u64::MAX, 5);
    assert!(timers.try_iter(u64::MAX - 1).is_empty());
    assert!(timers.try_iter(u64::MAX).is_empty());
    assert_eq!(timers.len(), 2);
}

#[test]
fn timer_started_after_a_drain_waits_for_its_own_time() {
    let mut timers = TimerManager::new();
    timers.new_timer(0, 10, 1);
    assert_eq!(timers.try_iter(10).len(), 1);
    timers.new_timer(10, 10, 2);
    assert!(timers.try_iter(19).is_empty());
    assert_eq!(timers.try_iter(20), vec![Timer { delay: 10, context: 2 }]);
}
