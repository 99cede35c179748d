use arith_dispatch::layout::{kind_at, object_pool_len, operand_indices, value_pool_len, OpKind};

#[test]
fn kinds_repeat_zero_dot_sqrdot() {
    let expected = [OpKind::Zero, OpKind::Dot, OpKind::SqrDot];
    for i in 0..30usize {
        assert_eq!(kind_at(i), expected[i % 3]);
    }
    assert_eq!(kind_at(3071), OpKind::SqrDot);
    assert_eq!(kind_at(usize::MAX), OpKind::Zero);
}

#[test]
fn pool_lengths_for_benchmark_size() {
    assert_eq!(object_pool_len(1024), 3072);
    assert_eq!(value_pool_len(1024), 6144);
}

#[test]
fn pool_lengths_for_empty_pool() {
    assert_eq!(object_pool_len(0), 0);
    assert_eq!(value_pool_len(0), 0);
}

#[test]
fn pool_lengths_for_one_round() {
    assert_eq!(object_pool_len(1), 3);
    assert_eq!(value_pool_len(1), 6);
}

#[test]
fn operand_indices_first_and_last() {
    assert_eq!(operand_indices(0, 3072, 6144), (0, 1));
    assert_eq!(operand_indices(1, 3072, 6144), (2, 3));
    assert_eq!(operand_indices(3071, 3072, 6144), (6142, 6143));
}

#[test]
fn operand_indices_stay_in_bounds_and_apart() {
    for n in 0..20usize {
        let objects = object_pool_len(n);
        let values = value_pool_len(n);
        let mut seen = vec![false; values];
        for i in 0..objects {
            let (a, b) = operand_indices(i, objects, values);
            assert_eq!((a, b), (2 * i, 2 * i + 1));
            assert!(a < values && b < values);
            assert!(!seen[a] && !seen[b]);
            seen[a] = true;
            seen[b] = true;
        }
        assert!(seen.iter().all(|s| *s));
    }
}
