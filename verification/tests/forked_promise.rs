use rpc_core::error::Error;
use rpc_core::forked_promise::{ForkedPromise, PollStep, Woken};

#[test]
fn branches_are_numbered_in_the_order_they_are_added() {
    let mut promise: ForkedPromise<u8, &'static str> = ForkedPromise::new();
    assert_eq!(promise.branches(), 0);
    assert_eq!(promise.add_branch(), 0);
    assert_eq!(promise.add_branch(), 1);
    assert_eq!(promise.add_branch(), 2);
    assert_eq!(promise.branches(), 3);
    assert_eq!(promise.outcome(), None);
}

#[test]
fn first_poll_drives_and_the_others_wait() {
    let mut promise: ForkedPromise<u8, &'static str> = ForkedPromise::new();
    let a = promise.add_branch();
    let b = promise.add_branch();
    assert_eq!(promise.poll(b, "b"), PollStep::Drive);
    assert_eq!(promise.poll(a, "a"), PollStep::Wait);
    // The driver keeps driving.
    assert_eq!(promise.poll(b, "b again"), PollStep::Drive);
    assert_eq!(promise.poll(a, "a again"), PollStep::Wait);
}

#[test]
fn waiters_are_woken_in_registration_order() {
    let mut promise: ForkedPromise<u8, &'static str> = ForkedPromise::new();
    let ids: Vec<usize> = (0..5).map(|_| promise.add_branch()).collect();
    assert_eq!(promise.poll(ids[2], "driver"), PollStep::Drive);
    // They park in another order than they were added in.
    assert_eq!(promise.poll(ids[4], "e"), PollStep::Wait);
    assert_eq!(promise.poll(ids[0], "a"), PollStep::Wait);
    assert_eq!(promise.poll(ids[3], "d"), PollStep::Wait);
    let woken = promise.resolve(Ok(9));
    assert_eq!(
        woken,
        vec![
            Woken { branch: 0, waker: "a" },
            Woken { branch: 3, waker: "d" },
            Woken { branch: 4, waker: "e" },
        ]
    );
}

#[test]
fn result_is_shared_by_present_and_future_branches() {
    let mut promise: ForkedPromise<String, u8> = ForkedPromise::new();
    let a = promise.add_branch();
    let b = promise.add_branch();
    assert_eq!(promise.poll(a, 1), PollStep::Drive);
    assert_eq!(promise.poll(b, 2), PollStep::Wait);
    let woken = promise.resolve(Ok("value".to_string()));
    assert_eq!(woken, vec![Woken { branch: 1, waker: 2 }]);

    assert_eq!(promise.poll(a, 1), PollStep::Ready);
    assert_eq!(promise.poll(b, 2), PollStep::Ready);
    let late = promise.add_branch();
    assert_eq!(promise.poll(late, 3), PollStep::Ready);
    assert_eq!(promise.outcome(), Some(&Ok("value".to_string())));
    // Each branch takes its own copy.
    let copy = promise.outcome().unwrap().clone();
    assert_eq!(copy, Ok("value".to_string()));
}

#[test]
fn failure_is_shared_as_well() {
    let mut promise: ForkedPromise<u8, u8> = ForkedPromise::new();
    let a = promise.add_branch();
    assert_eq!(promise.poll(a, 0), PollStep::Drive);
    assert!(promise.resolve(Err(Error::disconnected("gone".to_string()))).is_empty());
    assert_eq!(promise.poll(a, 0), PollStep::Ready);
    assert_eq!(promise.outcome(), Some(&Err(Error::disconnected("gone".to_string()))));
}

#[test]
fn second_result_is_ignored() {
    let mut promise: ForkedPromise<u8, u8> = ForkedPromise::new();
    let a = promise.add_branch();
    let b = promise.add_branch();
    promise.poll(a, 1);
    promise.poll(b, 2);
    assert_eq!(promise.resolve(Ok(1)).len(), 1);
    assert!(promise.resolve(Ok(2)).is_empty());
    assert!(promise.resolve(Err(Error::failed("late".to_string()))).is_empty());
    assert_eq!(promise.outcome(), Some(&Ok(1)));
}

#[test]
fn resolving_without_branches_wakes_nobody() {
    let mut promise: ForkedPromise<u8, u8> = ForkedPromise::new();
    assert!(promise.resolve(Ok(1)).is_empty());
    let a = promise.add_branch();
    assert_eq!(promise.poll(a, 0), PollStep::Ready);
}

#[test]
fn dropped_driver_is_succeeded_by_the_first_waiter() {
    let mut promise: ForkedPromise<u8, &'static str> = ForkedPromise::new();
    let a = promise.add_branch();
    let b = promise.add_branch();
    let c = promise.add_branch();
    assert_eq!(promise.poll(b, "b"), PollStep::Drive);
    assert_eq!(promise.poll(c, "c"), PollStep::Wait);
    assert_eq!(promise.poll(a, "a"), PollStep::Wait);

    assert_eq!(promise.drop_branch(b), Some(Woken { branch: a, waker: "a" }));
    // The branch that was woken polls and drives; the other still waits.
    assert_eq!(promise.poll(a, "a"), PollStep::Drive);
    assert_eq!(promise.poll(c, "c again"), PollStep::Wait);
    assert_eq!(promise.resolve(Ok(1)), vec![Woken { branch: c, waker: "c again" }]);
}

#[test]
fn dropped_driver_without_waiters_leaves_the_seat_free() {
    let mut promise: ForkedPromise<u8, u8> = ForkedPromise::new();
    let a = promise.add_branch();
    let b = promise.add_branch();
    assert_eq!(promise.poll(a, 1), PollStep::Drive);
    assert_eq!(promise.drop_branch(a), None);
    assert_eq!(promise.poll(b, 2), PollStep::Drive);
}

#[test]
fn dropped_waiter_is_not_woken() {
    let mut promise: ForkedPromise<u8, u8> = ForkedPromise::new();
    let a = promise.add_branch();
    let b = promise.add_branch();
    let c = promise.add_branch();
    promise.poll(a, 1);
    promise.poll(b, 2);
    promise.poll(c, 3);
    assert_eq!(promise.drop_branch(b), None);
    assert_eq!(promise.resolve(Ok(0)), vec![Woken { branch: c, waker: 3 }]);
}

#[test]
fn dropping_after_the_result_wakes_nobody() {
    let mut promise: ForkedPromise<u8, u8> = ForkedPromise::new();
    let a = promise.add_branch();
    let b = promise.add_branch();
    promise.poll(a, 1);
    promise.poll(b, 2);
    promise.resolve(Ok(0));
    assert_eq!(promise.drop_branch(a), None);
    assert_eq!(promise.drop_branch(b), None);
}

#[test]
fn a_later_poll_replaces_the_waker() {
    let mut promise: ForkedPromise<u8, &'static str> = ForkedPromise::new();
    let a = promise.add_branch();
    let b = promise.add_branch();
    promise.poll(a, "driver");
    promise.poll(b, "old");
    promise.poll(b, "new");
    assert_eq!(promise.resolve(Ok(0)), vec![Woken { branch: b, waker: "new" }]);
}

/// The next number of a fixed sequence that looks arbitrary.
fn pick(seed: &mut u32) -> u32 {
    *seed = seed.wrapping_mul(1664525).wrapping_add(1013904223);
    *seed >> 16
}

#[test]
fn many_histories_wake_waiters_in_registration_order() {
    let mut seed: u32 = 99;
    for _round in 0..300 {
        let mut promise: ForkedPromise<u8, usize> = ForkedPromise::new();
        let mut live: Vec<usize> = Vec::new();
        let mut waiting: Vec<usize> = Vec::new();
        let mut driver: Option<usize> = None;
        let steps = 1 + pick(&mut seed) % 50;
        for _ in 0..steps {
            match pick(&mut seed) % 3 {
                0 => live.push(promise.add_branch()),
                1 if !live.is_empty() => {
                    let branch = live[pick(&mut seed) as usize % live.len()];
                    let step = promise.poll(branch, branch);
                    if driver.is_none() || driver == Some(branch) {
                        assert_eq!(step, PollStep::Drive);
                        driver = Some(branch);
                        waiting.retain(|b| *b != branch);
                    } else {
                        assert_eq!(step, PollStep::Wait);
                        if !waiting.contains(&branch) {
                            waiting.push(branch);
                        }
                    }
                }
                2 if !live.is_empty() => {
                    let at = pick(&mut seed) as usize % live.len();
                    let branch = live.remove(at);
                    waiting.retain(|b| *b != branch);
                    let successor = promise.drop_branch(branch);
                    if driver == Some(branch) {
                        driver = None;
                        waiting.sort();
                        if waiting.is_empty() {
                            assert_eq!(successor, None);
                        } else {
                            let first = waiting.remove(0);
                            assert_eq!(successor, Some(Woken { branch: first, waker: first }));
                        }
                    } else {
                        assert_eq!(successor, None);
                    }
                }
                _ => {}
            }
        }
        waiting.sort();
        let woken: Vec<usize> = promise.resolve(Ok(1)).into_iter().map(|w| w.branch).collect();
        assert_eq!(woken, waiting);
        for branch in live {
            assert_eq!(promise.poll(branch, branch), PollStep::Ready);
        }
    }
}
