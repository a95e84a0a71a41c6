use triad_runtime::WorkerPermitCount;

#[test]
fn zero_capacity_is_raised_to_one() {
    let count = WorkerPermitCount::new(0);

    assert_eq!(count.capacity(), 1);
    assert_eq!(count.available(), 1);
}

#[test]
fn slots_are_never_taken_beyond_the_capacity() {
    let mut count = WorkerPermitCount::new(3);

    assert!(count.try_acquire());
    assert!(count.try_acquire());
    assert!(count.try_acquire());
    assert!(!count.try_acquire());
    assert_eq!(count.available(), 0);

    count.release();
    assert_eq!(count.available(), 1);
    assert!(count.try_acquire());
    assert!(!count.try_acquire());
}
