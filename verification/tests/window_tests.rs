use audio_limiter::window::Window;

#[test]
fn new_window_is_empty() {
    let w = Window::new(4);
    assert_eq!(w.len(), 0);
    assert_eq!(w.capacity(), 4);
    assert_eq!(w.to_vec(), Vec::<u64>::new());
}

#[test]
fn supports_rejects_zero_and_huge() {
    assert!(!Window::supports(0));
    assert!(Window::supports(1));
    assert!(Window::supports(512));
    assert!(Window::supports(1000));
    assert!(Window::supports(usize::MAX / 32));
    assert!(!Window::supports(usize::MAX / 32 + 1));
    assert!(!Window::supports(usize::MAX));
}

#[test]
fn push_fills_then_evicts_oldest() {
    let mut w = Window::new(3);
    w.push(10);
    assert_eq!(w.to_vec(), vec![10]);
    w.push(20);
    w.push(30);
    assert_eq!(w.len(), 3);
    assert_eq!(w.to_vec(), vec![10, 20, 30]);
    w.push(40);
    assert_eq!(w.len(), 3);
    assert_eq!(w.capacity(), 3);
    assert_eq!(w.to_vec(), vec![20, 30, 40]);
    w.push(50);
    assert_eq!(w.to_vec(), vec![30, 40, 50]);
}

#[test]
fn get_counts_from_the_oldest() {
    let mut w = Window::new(4);
    for x in 1..=6u64 {
        w.push(x);
    }
    assert_eq!(w.get(0), 3);
    assert_eq!(w.get(1), 4);
    assert_eq!(w.get(2), 5);
    assert_eq!(w.get(3), 6);
}

#[test]
fn extend_keeps_the_newest() {
    let mut w = Window::new(5);
    w.extend(&[1, 2, 3]);
    assert_eq!(w.to_vec(), vec![1, 2, 3]);
    w.extend(&[4, 5, 6, 7]);
    assert_eq!(w.to_vec(), vec![3, 4, 5, 6, 7]);
    w.extend(&[]);
    assert_eq!(w.to_vec(), vec![3, 4, 5, 6, 7]);
}

#[test]
fn extend_with_more_than_capacity() {
    let mut w = Window::new(3);
    let chunk: Vec<u64> = (0..10).collect();
    w.extend(&chunk);
    assert_eq!(w.len(), 3);
    assert_eq!(w.to_vec(), vec![7, 8, 9]);
}

#[test]
fn capacity_need_not_be_a_power_of_two() {
    let mut w = Window::new(1000);
    let chunk: Vec<u64> = (0..2500).collect();
    w.extend(&chunk);
    assert_eq!(w.capacity(), 1000);
    assert_eq!(w.len(), 1000);
    let held = w.to_vec();
    let expected: Vec<u64> = (1500..2500).collect();
    assert_eq!(held, expected);
}

#[test]
fn window_of_one_holds_the_last_sample() {
    let mut w = Window::new(1);
    w.push(7);
    assert_eq!(w.to_vec(), vec![7]);
    w.push(8);
    assert_eq!(w.to_vec(), vec![8]);
    assert_eq!(w.len(), 1);
}

#[test]
fn wraps_many_times() {
    let mut w = Window::new(7);
    for round in 0..100u64 {
        let chunk: Vec<u64> = (0..13).map(|i| round * 13 + i).collect();
        w.extend(&chunk);
        let last = round * 13 + 12;
        let expected: Vec<u64> = (last - 6..=last).collect();
        assert_eq!(w.to_vec(), expected);
    }
}
