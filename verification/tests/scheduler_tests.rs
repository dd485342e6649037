use orbital::process::{create_process, set_process_status, ProcessStatus, ProcessTable};
use orbital::scheduler::{
    check_quantum_expired, current_process, disable_preemption, enable_preemption,
    enqueue_process, get_elapsed_seconds, is_preemption_enabled, schedule, timer_tick, Scheduler,
};

#[test]
fn test_scheduler_enqueue() {
    let mut sched = Scheduler::new();
    sched.enqueue(1);
    sched.enqueue(2);
    assert_eq!(sched.dequeue(), Some(1));
    assert_eq!(sched.dequeue(), Some(2));
}

#[test]
fn test_scheduler_round_robin() {
    let mut sched = Scheduler::new();
    sched.enqueue(1);
    sched.enqueue(2);
    sched.enqueue(3);

    // After 3 dequeues, should be empty
    sched.dequeue();
    sched.dequeue();
    sched.dequeue();
    assert_eq!(sched.dequeue(), None);
}

#[test]
fn test_time_quantum() {
    let mut sched = Scheduler::new();
    for _ in 0..99 {
        assert_eq!(sched.tick(), false);
    }
    assert_eq!(sched.tick(), true); // Should expire after 100 ticks
}

#[test]
fn test_time_quantum_resets() {
    let mut sched = Scheduler::new();
    for _ in 0..100 {
        sched.tick();
    }
    // The counter reset on expiry: the next cycle behaves the same.
    for _ in 0..99 {
        assert_eq!(sched.tick(), false);
    }
    assert_eq!(sched.tick(), true);
}

#[test]
fn test_enqueue_idempotent() {
    let mut sched = Scheduler::new();
    sched.enqueue(5);
    sched.enqueue(5);
    assert_eq!(sched.dequeue(), Some(5));
    assert_eq!(sched.dequeue(), None);
}

#[test]
fn test_round_robin_fairness_cycle() {
    // Three running processes: N schedule calls select each id exactly
    // once in enqueue order, and the (N+1)-th starts the cycle over.
    let mut table = ProcessTable::new();
    let mut sched = Scheduler::new();
    let mut pids = Vec::new();
    for i in 0..3u64 {
        let pid = create_process(&mut table, &mut sched, 0x1000 + i) as u64;
        pids.push(pid);
    }

    let mut selected = Vec::new();
    for _ in 0..3 {
        let (_prev, next) = schedule(&mut sched, &table);
        let next = next.unwrap();
        selected.push(next);
        // The selected process starts running until the next decision.
        set_process_status(&mut table, next, ProcessStatus::Running);
    }
    assert_eq!(selected, pids);

    // The fourth call repeats the cycle.
    let (prev, next) = schedule(&mut sched, &table);
    assert_eq!(prev, Some(pids[2]));
    assert_eq!(next, Some(pids[0]));
}

#[test]
fn test_schedule_drops_exited() {
    let mut table = ProcessTable::new();
    let mut sched = Scheduler::new();
    let pid1 = create_process(&mut table, &mut sched, 0x1000) as u64;
    let pid2 = create_process(&mut table, &mut sched, 0x2000) as u64;

    let (_, next) = schedule(&mut sched, &table);
    assert_eq!(next, Some(pid1));
    // The current process exits: it is not re-enqueued.
    set_process_status(&mut table, pid1, ProcessStatus::Exited(0));
    let (prev, next) = schedule(&mut sched, &table);
    assert_eq!(prev, Some(pid1));
    assert_eq!(next, Some(pid2));
    set_process_status(&mut table, pid2, ProcessStatus::Running);
    let (prev, next) = schedule(&mut sched, &table);
    assert_eq!(prev, Some(pid2));
    // Only pid2 remains in rotation.
    assert_eq!(next, Some(pid2));
}

#[test]
fn test_preemption_toggle() {
    let mut sched = Scheduler::new();
    assert!(is_preemption_enabled(&sched));
    disable_preemption(&mut sched);
    assert!(!is_preemption_enabled(&sched));
    enable_preemption(&mut sched);
    assert!(is_preemption_enabled(&sched));
}

#[test]
fn test_timer_tick_and_elapsed_seconds() {
    let mut sched = Scheduler::new();
    for i in 1..=250u64 {
        let fired = timer_tick(&mut sched);
        assert_eq!(fired, i % 100 == 0);
    }
    // 250 ticks at 100 Hz make two whole seconds.
    assert_eq!(get_elapsed_seconds(&sched), 2);
}

#[test]
fn test_check_quantum_expired() {
    let mut sched = Scheduler::new();
    assert!(!check_quantum_expired(&sched));
    for _ in 0..50 {
        sched.tick();
    }
    // tick resets on expiry, so the counter stays below the quantum.
    assert!(!check_quantum_expired(&sched));
}

#[test]
fn test_current_process_tracking() {
    let mut sched = Scheduler::new();
    assert_eq!(current_process(&sched), None);
    enqueue_process(&mut sched, 9);
    let table = ProcessTable::new();
    let (prev, next) = schedule(&mut sched, &table);
    assert_eq!(prev, None);
    assert_eq!(next, Some(9));
    assert_eq!(current_process(&sched), Some(9));
    sched.set_current(None);
    assert_eq!(sched.current(), None);
}
