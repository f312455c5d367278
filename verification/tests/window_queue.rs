use aserial::queue::WindowQueue;
use aserial::spectrum::WindowBuilder;

#[test]
fn windows_overlap_by_window_size_minus_step() {
    let mut b = WindowBuilder::new(4, 2);
    assert_eq!(b.push_sample(1), None);
    assert_eq!(b.push_sample(2), None);
    assert_eq!(b.push_sample(3), None);
    // The fourth sample completes the first window...
    assert_eq!(b.push_sample(4), Some(vec![1, 2, 3, 4]));
    // ...whose last two samples are retained, so two more complete the next.
    assert_eq!(b.push_sample(5), None);
    assert_eq!(b.push_sample(6), Some(vec![3, 4, 5, 6]));
    assert_eq!(b.push_sample(7), None);
    assert_eq!(b.push_sample(8), Some(vec![5, 6, 7, 8]));
}

#[test]
fn step_equal_to_window_size_means_no_overlap() {
    let mut b = WindowBuilder::new(2, 2);
    assert_eq!(b.push_sample(10), None);
    assert_eq!(b.push_sample(11), Some(vec![10, 11]));
    assert_eq!(b.push_sample(12), None);
    assert_eq!(b.push_sample(13), Some(vec![12, 13]));
}

#[test]
fn queue_is_fifo_under_backlog() {
    // Feed faster than draining: a long backlog must come out in exactly
    // the order it went in, nothing dropped, nothing reordered.
    let mut q = WindowQueue::new();
    for i in 0..1000i32 {
        q.push_back(vec![i, i + 1]);
    }
    assert_eq!(q.len(), 1000);
    for i in 0..1000i32 {
        assert_eq!(q.pop_front(), Some(vec![i, i + 1]));
    }
    assert_eq!(q.pop_front(), None);
    assert_eq!(q.len(), 0);
}

#[test]
fn queue_interleaves_pushes_and_pops_in_order() {
    let mut q = WindowQueue::new();
    q.push_back(vec![1]);
    q.push_back(vec![2]);
    assert_eq!(q.pop_front(), Some(vec![1]));
    q.push_back(vec![3]);
    assert_eq!(q.pop_front(), Some(vec![2]));
    assert_eq!(q.pop_front(), Some(vec![3]));
    assert_eq!(q.pop_front(), None);
}
