use multicore::serial::DummyScope;
use multicore::serial::Worker;

#[test]
fn log_num_cpus_is_zero() {
    let worker = Worker::new();
    assert_eq!(worker.log_num_cpus(), 0);
}

#[test]
fn serial_compute_ok_polls_ready_with_value() {
    let worker = Worker::new();
    let mut fut = worker.compute(|| Ok::<u32, u8>(5));
    assert_eq!(fut.poll(), Some(&Ok(5)));
    assert_eq!(fut.poll(), Some(&Ok(5)));
}

#[test]
fn serial_compute_err_polls_ready_with_error() {
    let worker = Worker::new();
    let mut fut = worker.compute(|| Err::<u32, String>("boom".to_string()));
    assert_eq!(fut.poll(), Some(&Err("boom".to_string())));
    assert_eq!(fut.poll(), Some(&Err("boom".to_string())));
}

#[test]
fn scope_passes_elements_as_chunk_size() {
    let worker = Worker::new();
    let chunk = worker.scope(7, |_s: &DummyScope, chunk_size: usize| chunk_size);
    assert_eq!(chunk, 7);
    let chunk = worker.scope(0, |_s: &DummyScope, chunk_size: usize| chunk_size);
    assert_eq!(chunk, 0);
}

#[test]
fn serial_scope_returns_the_closure_result() {
    let worker = Worker::new();
    let out = worker.scope(3, |_s: &DummyScope, chunk_size: usize| ("answer", chunk_size * 2));
    assert_eq!(out, ("answer", 6));
}

#[test]
fn spawn_runs_inline_before_returning() {
    let worker = Worker::new();
    let hits = worker.scope(4, |s: &DummyScope, _chunk: usize| {
        let mut hits: usize = 0;
        s.spawn(|_| hits += 1);
        assert_eq!(hits, 1);
        s.spawn(|_| hits += 1);
        assert_eq!(hits, 2);
        hits
    });
    assert_eq!(hits, 2);
}

#[test]
fn nested_spawns_all_complete_inside_the_scope() {
    let worker = Worker::new();
    let hits = worker.scope(8, |s: &DummyScope, _chunk: usize| {
        let mut hits: usize = 0;
        s.spawn(|inner| {
            hits += 1;
            inner.spawn(|_| hits += 1);
        });
        s.spawn(|_| hits += 1);
        hits
    });
    assert_eq!(hits, 3);
}

#[test]
fn workers_are_cloneable() {
    let worker = Worker::new();
    let copy = worker.clone();
    assert_eq!(copy.log_num_cpus(), 0);
}
