use hook_deploy::DeployQueue;

#[test]
fn new_queue_is_idle() {
    let q = DeployQueue::new();
    assert!(q.is_idle());
    assert!(!q.may_run(0));
}

#[test]
fn two_simultaneous_deliveries_run_one_after_the_other() {
    let mut q = DeployQueue::new();
    let first = q.enter().unwrap();
    let second = q.enter().unwrap();
    assert_ne!(first, second);
    assert!(q.may_run(first));
    assert!(!q.may_run(second));
    q.leave(first);
    assert!(!q.may_run(first));
    assert!(q.may_run(second));
    q.leave(second);
    assert!(q.is_idle());
}

#[test]
fn tickets_run_in_arrival_order() {
    let mut q = DeployQueue::new();
    let tickets: Vec<u64> = (0..4).map(|_| q.enter().unwrap()).collect();
    for (i, &t) in tickets.iter().enumerate() {
        for &later in &tickets[i + 1..] {
            assert!(!q.may_run(later));
        }
        assert!(q.may_run(t));
        q.leave(t);
    }
    assert!(q.is_idle());
}
