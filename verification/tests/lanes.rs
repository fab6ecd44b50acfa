use pjdfstest::lanes::{Lane, SerializationController};

#[test]
fn a_serialized_case_takes_the_exclusive_lane() {
    assert_eq!(Lane::for_case(true), Lane::Exclusive);
    assert_eq!(Lane::for_case(false), Lane::Concurrent);
}

#[test]
fn many_may_share_the_concurrent_lane() {
    let mut controller = SerializationController::new();
    let a = controller.try_acquire(Lane::Concurrent).unwrap();
    let b = controller.try_acquire(Lane::Concurrent).unwrap();
    let c = controller.try_acquire(Lane::Concurrent).unwrap();
    assert_eq!(a.lane(), Lane::Concurrent);
    assert_eq!(controller.concurrent_holders(), 3);
    assert!(controller.holds(Lane::Concurrent));
    assert!(!controller.holds(Lane::Exclusive));
    assert!(controller.release(a));
    assert!(controller.release(b));
    assert!(controller.release(c));
    assert_eq!(controller.concurrent_holders(), 0);
    assert!(!controller.holds(Lane::Concurrent));
}

#[test]
fn the_exclusive_lane_waits_for_the_concurrent_lane_to_drain() {
    let mut controller = SerializationController::new();
    let a = controller.try_acquire(Lane::Concurrent).unwrap();
    let b = controller.try_acquire(Lane::Concurrent).unwrap();
    assert!(controller.try_acquire(Lane::Exclusive).is_none());
    assert!(controller.release(a));
    assert!(controller.try_acquire(Lane::Exclusive).is_none());
    assert!(controller.release(b));
    let exclusive = controller.try_acquire(Lane::Exclusive).unwrap();
    assert_eq!(exclusive.lane(), Lane::Exclusive);
    assert!(controller.holds(Lane::Exclusive));
}

#[test]
fn nobody_enters_while_the_exclusive_lane_is_held() {
    let mut controller = SerializationController::new();
    let exclusive = controller.try_acquire(Lane::Exclusive).unwrap();
    assert!(controller.try_acquire(Lane::Concurrent).is_none());
    assert!(controller.try_acquire(Lane::Exclusive).is_none());
    assert_eq!(controller.concurrent_holders(), 0);
    assert!(controller.release(exclusive));
    assert!(!controller.holds(Lane::Exclusive));
    assert!(controller.try_acquire(Lane::Concurrent).is_some());
}

#[test]
fn a_refusal_changes_nothing() {
    let mut controller = SerializationController::new();
    let a = controller.try_acquire(Lane::Concurrent).unwrap();
    assert!(controller.try_acquire(Lane::Exclusive).is_none());
    assert_eq!(controller.concurrent_holders(), 1);
    assert!(!controller.holds(Lane::Exclusive));
    assert!(controller.release(a));
}

#[test]
fn a_ticket_for_an_empty_lane_is_not_taken_back() {
    let mut first = SerializationController::new();
    let mut second = SerializationController::new();
    let foreign = first.try_acquire(Lane::Exclusive).unwrap();
    assert!(!second.release(foreign));
    assert!(!second.holds(Lane::Exclusive));
    let foreign = first.try_acquire(Lane::Exclusive);
    assert!(foreign.is_none());
    let mut third = SerializationController::new();
    let shared = third.try_acquire(Lane::Concurrent).unwrap();
    assert!(!second.release(shared));
    assert_eq!(second.concurrent_holders(), 0);
}

#[test]
fn lanes_never_mix_over_a_long_schedule() {
    let mut controller = SerializationController::new();
    let mut shared = Vec::new();
    let mut exclusive = None;
    for step in 0..200u32 {
        match step % 7 {
            0 | 1 | 4 => {
                if let Some(ticket) = controller.try_acquire(Lane::Concurrent) {
                    shared.push(ticket);
                }
            }
            2 => {
                if let Some(ticket) = controller.try_acquire(Lane::Exclusive) {
                    exclusive = Some(ticket);
                }
            }
            3 | 5 => {
                if let Some(ticket) = shared.pop() {
                    assert!(controller.release(ticket));
                }
            }
            _ => {
                if let Some(ticket) = exclusive.take() {
                    assert!(controller.release(ticket));
                }
            }
        }
        assert_eq!(controller.concurrent_holders(), shared.len());
        assert_eq!(controller.holds(Lane::Exclusive), exclusive.is_some());
        assert!(!(controller.holds(Lane::Exclusive) && controller.holds(Lane::Concurrent)));
    }
}
