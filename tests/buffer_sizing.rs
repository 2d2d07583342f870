use buffer_sizing::BufferSizer;

const MIB: u64 = 1024 * 1024;
const KIB: usize = 1024;

#[test]
fn parallel_buffer_size_handles_zero_threads() {
    let sizer = BufferSizer::new();
    let expected = sizer.calculate_buffer_size(100 * 1024 * 1024, false);
    assert_eq!(sizer.calculate_parallel_buffer_size(0, false), expected);
}

#[test]
fn buffer_size_stays_within_bounds() {
    let sizer = BufferSizer::new();
    let sizes = [
        0,
        1,
        10 * MIB - 1,
        10 * MIB,
        100 * MIB - 1,
        100 * MIB,
        u64::MAX,
    ];
    for &size in sizes.iter() {
        for &network in [false, true].iter() {
            let r = sizer.calculate_buffer_size(size, network);
            assert!(r >= 1024 * 1024);
            assert!(r <= 16 * 1024 * 1024);
        }
    }
}

#[test]
fn buffer_size_by_tier() {
    let sizer = BufferSizer::new();
    assert_eq!(sizer.calculate_buffer_size(5 * MIB, false), 1024 * 1024);
    assert_eq!(sizer.calculate_buffer_size(50 * MIB, false), 4 * 1024 * 1024);
    assert_eq!(sizer.calculate_buffer_size(50 * MIB, true), 8 * 1024 * 1024);
    assert_eq!(sizer.calculate_buffer_size(500 * MIB, false), 16 * 1024 * 1024);
}

#[test]
fn buffer_size_at_tier_edges() {
    let sizer = BufferSizer::new();
    assert_eq!(sizer.calculate_buffer_size(0, true), 1024 * 1024);
    assert_eq!(sizer.calculate_buffer_size(10 * MIB - 1, true), 1024 * 1024);
    assert_eq!(sizer.calculate_buffer_size(10 * MIB, false), 4 * 1024 * 1024);
    assert_eq!(sizer.calculate_buffer_size(10 * MIB, true), 8 * 1024 * 1024);
    assert_eq!(sizer.calculate_buffer_size(100 * MIB - 1, false), 4 * 1024 * 1024);
    assert_eq!(sizer.calculate_buffer_size(100 * MIB, false), 16 * 1024 * 1024);
    assert_eq!(sizer.calculate_buffer_size(100 * MIB, true), 16 * 1024 * 1024);
    assert_eq!(sizer.calculate_buffer_size(u64::MAX, true), 16 * 1024 * 1024);
}

#[test]
fn network_buffer_not_smaller_than_local() {
    let sizer = BufferSizer::new();
    assert!(sizer.calculate_buffer_size(50 * MIB, true) >= sizer.calculate_buffer_size(50 * MIB, false));
    for &size in [0, 5 * MIB, 10 * MIB, 99 * MIB, 100 * MIB, 1000 * MIB].iter() {
        assert!(sizer.calculate_buffer_size(size, true) >= sizer.calculate_buffer_size(size, false));
    }
}

#[test]
fn zero_threads_sized_as_one() {
    let sizer = BufferSizer::new();
    for &network in [false, true].iter() {
        assert_eq!(
            sizer.calculate_parallel_buffer_size(0, network),
            sizer.calculate_parallel_buffer_size(1, network)
        );
    }
}

#[test]
fn parallel_buffer_size_has_floor() {
    let sizer = BufferSizer::new();
    for &threads in [0, 1, 2, 63, 64, 65, 1000, usize::MAX].iter() {
        for &network in [false, true].iter() {
            assert!(sizer.calculate_parallel_buffer_size(threads, network) >= 256 * KIB);
        }
    }
    assert_eq!(sizer.calculate_parallel_buffer_size(usize::MAX, true), 256 * KIB);
}

#[test]
fn parallel_buffer_size_divides_among_threads() {
    let sizer = BufferSizer::new();
    assert_eq!(sizer.calculate_parallel_buffer_size(1, false), 16 * 1024 * 1024);
    assert_eq!(sizer.calculate_parallel_buffer_size(2, false), 8 * 1024 * 1024);
    assert_eq!(sizer.calculate_parallel_buffer_size(4, true), 4 * 1024 * 1024);
    assert_eq!(sizer.calculate_parallel_buffer_size(3, false), 5592405);
    assert_eq!(sizer.calculate_parallel_buffer_size(64, false), 256 * KIB);
    assert_eq!(sizer.calculate_parallel_buffer_size(65, false), 256 * KIB);
}

#[test]
fn parallel_buffer_size_non_increasing() {
    let sizer = BufferSizer::new();
    for &network in [false, true].iter() {
        let mut previous = sizer.calculate_parallel_buffer_size(0, network);
        for threads in 1..200usize {
            let current = sizer.calculate_parallel_buffer_size(threads, network);
            assert!(current <= previous);
            previous = current;
        }
    }
}

#[test]
fn cached_estimate_shared_across_calls() {
    let sizer = BufferSizer::new();
    let small_first = sizer.calculate_buffer_size(5 * MIB, false);
    let large = sizer.calculate_buffer_size(500 * MIB, false);
    let small_again = sizer.calculate_buffer_size(5 * MIB, false);
    assert_eq!(small_first, small_again);
    assert_eq!(large, 16 * 1024 * 1024);
    let fresh = BufferSizer::new();
    assert_eq!(fresh.calculate_buffer_size(500 * MIB, false), large);
}

#[test]
fn repeated_calls_agree() {
    let sizer = BufferSizer::new();
    for &size in [0, 50 * MIB, 500 * MIB].iter() {
        for &network in [false, true].iter() {
            let first = sizer.calculate_buffer_size(size, network);
            let second = sizer.calculate_buffer_size(size, network);
            assert_eq!(first, second);
        }
    }
    assert_eq!(
        sizer.calculate_parallel_buffer_size(7, true),
        sizer.calculate_parallel_buffer_size(7, true)
    );
}

#[test]
fn default_sizer_matches_new() {
    let made = BufferSizer::new();
    let defaulted = BufferSizer::default();
    for &size in [0, 50 * MIB, 500 * MIB].iter() {
        for &network in [false, true].iter() {
            assert_eq!(
                defaulted.calculate_buffer_size(size, network),
                made.calculate_buffer_size(size, network)
            );
        }
    }
}
