use loop_unroll::action::{AddIndex, AddIndexStoreSlot, IndexLog, PairLog, StoreIndex};
use loop_unroll::factor::{Loop, U0, U1, U2, U3, U4, U5, U6, U7, U8};
use loop_unroll::{full_unroll, partial_unroll};

#[test]
fn test_loop() {
    let vec: Vec<usize> = (0..4).collect();
    let mut action = AddIndex::new(vec![0; 4]);
    U4::full_unroll(&mut action);
    assert_eq!(action.cells, vec);
}

#[test]
fn test_unroll() {
    let expected1: Vec<usize> = (0..13).collect();
    let expected2: Vec<usize> = (0..13).map(|i: usize| i % 4).collect();
    let mut action = AddIndexStoreSlot::new(vec![0; 13], vec![0; 13]);
    U4::partial_unroll(13, &mut action);
    assert_eq!(action.sums, expected1);
    assert_eq!(action.slots, expected2);
}

#[test]
fn full_unroll_delivers_each_index_once_in_order() {
    let counts: [usize; 6] = [0, 1, 2, 3, 4, 8];
    for n in counts {
        let expected: Vec<usize> = (0..n).collect();
        let mut log = IndexLog::new();
        full_unroll(n, &mut log);
        assert_eq!(log.calls, expected);
    }
}

#[test]
fn typed_factors_run_their_own_count() {
    let mut log = IndexLog::new();
    U0::full_unroll(&mut log);
    assert_eq!(log.calls, Vec::<usize>::new());
    let mut log = IndexLog::new();
    U1::full_unroll(&mut log);
    assert_eq!(log.calls, vec![0]);
    let mut log = IndexLog::new();
    U2::full_unroll(&mut log);
    assert_eq!(log.calls, vec![0, 1]);
    let mut log = IndexLog::new();
    U3::full_unroll(&mut log);
    assert_eq!(log.calls, vec![0, 1, 2]);
    let mut log = IndexLog::new();
    U8::full_unroll(&mut log);
    assert_eq!(log.calls, vec![0, 1, 2, 3, 4, 5, 6, 7]);
}

#[test]
fn typed_factors_report_their_count() {
    assert_eq!(U0::to_usize(), 0);
    assert_eq!(U1::to_usize(), 1);
    assert_eq!(U2::to_usize(), 2);
    assert_eq!(U3::to_usize(), 3);
    assert_eq!(U4::to_usize(), 4);
    assert_eq!(U5::to_usize(), 5);
    assert_eq!(U6::to_usize(), 6);
    assert_eq!(U7::to_usize(), 7);
    assert_eq!(U8::to_usize(), 8);
}

#[test]
fn partial_unroll_pairs_every_index_with_its_slot() {
    let cases: [(usize, usize); 6] = [(1, 5), (2, 8), (3, 7), (4, 13), (3, 9), (6, 3)];
    for (n, k) in cases {
        let mut log = PairLog::new();
        partial_unroll(n, k, &mut log);
        assert_eq!(log.calls.len(), k);
        for (i, pair) in log.calls.iter().enumerate() {
            assert_eq!(*pair, (i, i % n));
        }
    }
}

#[test]
fn full_unroll_agrees_with_partial_unroll_of_same_count() {
    let mut full = IndexLog::new();
    full_unroll(4, &mut full);
    let mut partial = PairLog::new();
    partial_unroll(4, 4, &mut partial);
    let indices: Vec<usize> = partial.calls.iter().map(|p: &(usize, usize)| p.0).collect();
    assert_eq!(indices, full.calls);
    for pair in &partial.calls {
        assert_eq!(pair.0, pair.1);
    }
}

#[test]
fn store_index_writes_each_cell() {
    let mut action = StoreIndex::new(vec![0; 4]);
    full_unroll(4, &mut action);
    assert_eq!(action.cells, vec![0, 1, 2, 3]);
}

#[test]
fn count_below_factor_runs_only_the_edge_loop() {
    let mut log = PairLog::new();
    U6::partial_unroll(3, &mut log);
    assert_eq!(log.calls, vec![(0, 0), (1, 1), (2, 2)]);
}

#[test]
fn exact_multiple_of_factor_skips_the_edge_loop() {
    let mut log = PairLog::new();
    U3::partial_unroll(6, &mut log);
    assert_eq!(log.calls, vec![(0, 0), (1, 1), (2, 2), (3, 0), (4, 1), (5, 2)]);
}

#[test]
fn zero_count_makes_no_calls() {
    let mut log = PairLog::new();
    partial_unroll(5, 0, &mut log);
    assert_eq!(log.calls, Vec::<(usize, usize)>::new());
    let mut log = PairLog::new();
    U7::partial_unroll(0, &mut log);
    assert_eq!(log.calls, Vec::<(usize, usize)>::new());
}

#[test]
fn zero_trip_count_makes_no_calls() {
    let mut log = IndexLog::new();
    full_unroll(0, &mut log);
    assert_eq!(log.calls, Vec::<usize>::new());
    let mut log = IndexLog::new();
    U0::full_unroll(&mut log);
    assert_eq!(log.calls, Vec::<usize>::new());
}
