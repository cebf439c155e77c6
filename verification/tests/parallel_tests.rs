use learning_rust::parallel::{chunk_bounds, range_sum};

#[test]
fn range_sums() {
    assert_eq!(range_sum(1, 100), 5050);
    assert_eq!(range_sum(5, 4), 0);
    assert_eq!(range_sum(-3, 3), 0);
    assert_eq!(range_sum(7, 7), 7);
}

#[test]
fn chunks_add_up_to_whole_range() {
    let mut total = 0;
    for i in 0..5 {
        let (start, end) = chunk_bounds(i, 20);
        assert_eq!(start, i * 20 + 1);
        assert_eq!(end, (i + 1) * 20);
        total += range_sum(start, end);
    }
    assert_eq!(total, range_sum(1, 100));
    assert_eq!(chunk_bounds(0, 0), (1, 0));
}
