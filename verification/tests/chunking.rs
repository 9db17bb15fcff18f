use multicore::chunk::chunk_size;

#[test]
fn chunk_is_one_when_fewer_elements_than_workers() {
    assert_eq!(chunk_size(0, 4), 1);
    assert_eq!(chunk_size(1, 4), 1);
    assert_eq!(chunk_size(3, 4), 1);
    assert_eq!(chunk_size(7, 8), 1);
}

#[test]
fn chunk_is_floor_division_otherwise() {
    assert_eq!(chunk_size(4, 4), 1);
    assert_eq!(chunk_size(5, 4), 1);
    assert_eq!(chunk_size(100, 4), 25);
    assert_eq!(chunk_size(101, 4), 25);
    assert_eq!(chunk_size(7, 2), 3);
    assert_eq!(chunk_size(9, 1), 9);
}

#[test]
fn chunks_never_overrun_the_workload() {
    for elements in [4usize, 5, 7, 100, 101, 1023] {
        for cpus in [1usize, 2, 3, 4] {
            if elements >= cpus {
                let c = chunk_size(elements, cpus);
                assert!(c * cpus <= elements);
                assert!(c >= 1);
            }
        }
    }
}
