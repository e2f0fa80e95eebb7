use wasm_bindgen_rayon::handoff::HandoffState;
use wasm_bindgen_rayon::PoolError;

#[test]
fn zero_workers_is_a_configuration_error() {
    assert_eq!(HandoffState::new(0).err(), Some(PoolError::ZeroWorkers));
}

#[test]
fn single_worker_receives_the_only_task() {
    let mut state = HandoffState::new(1).unwrap();
    assert_eq!(state.worker_count(), 1);
    assert!(!state.is_built());
    assert!(state.finish_construction().is_ok());
    assert!(state.is_built());
    assert_eq!(state.receive_task(), Some(0));
    assert_eq!(state.receive_task(), None);
}

#[test]
fn exactly_once_delivery_for_representative_counts() {
    for n in [1usize, 2, 8] {
        let mut state = HandoffState::new(n).unwrap();
        assert!(state.finish_construction().is_ok());
        let mut seen = vec![false; n];
        for _ in 0..n {
            let task = state.receive_task().expect("a task per worker");
            assert!(task < n, "task id out of range");
            assert!(!seen[task], "task delivered twice");
            seen[task] = true;
        }
        assert_eq!(state.receive_task(), None);
        assert!(seen.iter().all(|&s| s), "a task was never delivered");
    }
}

#[test]
fn burst_is_buffered_before_any_receiver() {
    let mut state = HandoffState::new(4).unwrap();
    // construction finishes while no worker is waiting yet
    assert!(state.finish_construction().is_ok());
    assert_eq!(state.pending_count(), 4);
    assert_eq!(state.delivered_count(), 0);
    // the workers arrive afterwards and still each get exactly one task
    let mut tasks = Vec::new();
    for _ in 0..4 {
        tasks.push(state.receive_task().unwrap());
    }
    tasks.sort();
    assert_eq!(tasks, vec![0, 1, 2, 3]);
    assert_eq!(state.pending_count(), 0);
}

#[test]
fn starved_workers_leave_tasks_pending_but_nothing_breaks() {
    let mut state = HandoffState::new(8).unwrap();
    assert!(state.finish_construction().is_ok());
    // only three of the eight bootstrap calls ever start
    let mut tasks = Vec::new();
    for _ in 0..3 {
        tasks.push(state.receive_task().unwrap());
    }
    tasks.sort();
    tasks.dedup();
    assert_eq!(tasks.len(), 3, "a task was delivered twice");
    assert_eq!(state.pending_count(), 5);
    assert_eq!(state.delivered_count(), 3);
    assert!(state.is_built());
    // a late worker can still pull one of the remaining tasks
    assert!(state.receive_task().is_some());
    assert_eq!(state.pending_count(), 4);
}

#[test]
fn finishing_construction_twice_is_refused() {
    let mut state = HandoffState::new(2).unwrap();
    assert!(state.finish_construction().is_ok());
    assert_eq!(state.finish_construction().err(), Some(PoolError::BuildRefused));
    // the refused second run changed nothing
    assert_eq!(state.pending_count(), 2);
    assert_eq!(state.delivered_count(), 0);
}

#[test]
fn nothing_to_receive_before_construction_finishes() {
    let mut state = HandoffState::new(3).unwrap();
    assert_eq!(state.receive_task(), None);
    assert_eq!(state.pending_count(), 0);
}
