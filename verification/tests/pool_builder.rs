use wasm_bindgen_rayon::{init_thread_pool, wbg_rayon_start_worker, wbg_rayon_PoolBuilder, PoolError};

#[test]
fn zero_worker_pool_is_refused() {
    assert_eq!(wbg_rayon_PoolBuilder::new(0).err(), Some(PoolError::ZeroWorkers));
    assert_eq!(init_thread_pool(0).err(), Some(PoolError::ZeroWorkers));
}

#[test]
fn builder_stores_count_and_sizes_the_channel_to_match() {
    let builder = init_thread_pool(4).unwrap();
    assert_eq!(builder.num_threads(), 4);
    // the delivery channel's own report of its capacity: one slot per worker
    assert_eq!(builder.channel_capacity(), Some(4));
    assert_eq!(builder.receiver().capacity(), Some(4));
    assert!(builder.receiver().is_empty());
}

#[test]
fn worker_with_a_closed_empty_channel_reports_starvation() {
    let (sender, receiver) = crossbeam_channel::bounded::<rayon::ThreadBuilder>(1);
    drop(sender);
    assert_eq!(wbg_rayon_start_worker(&receiver).err(), Some(PoolError::NoTaskAvailable));
}
