use audio_player::queue::SampleQueue;

#[test]
fn fifo_order() {
    // Pushing [a,b,c] then [d,e] and popping 5 yields [a,b,c,d,e] in order.
    let mut q: SampleQueue<f32> = SampleQueue::new();
    q.push(&vec![0.1, 0.2, 0.3]);
    q.push(&vec![0.4, 0.5]);
    let (samples, count) = q.pop_front(5);
    assert_eq!(count, 5);
    assert_eq!(samples, vec![0.1, 0.2, 0.3, 0.4, 0.5]);
    assert!(q.is_empty());
}

#[test]
fn pop_returns_only_what_is_available() {
    let mut q: SampleQueue<f32> = SampleQueue::new();
    q.push(&vec![1.0, -1.0]);
    let (samples, count) = q.pop_front(5);
    assert_eq!(count, 2);
    assert_eq!(samples, vec![1.0, -1.0]);
    assert_eq!(q.len(), 0);
}

#[test]
fn pop_from_empty_queue() {
    let mut q: SampleQueue<f32> = SampleQueue::new();
    let (samples, count) = q.pop_front(4);
    assert_eq!(count, 0);
    assert!(samples.is_empty());
}

#[test]
fn partial_pop_keeps_the_rest_in_order() {
    let mut q: SampleQueue<i32> = SampleQueue::new();
    q.push(&vec![1, 2, 3, 4]);
    let (first, n1) = q.pop_front(2);
    assert_eq!((first, n1), (vec![1, 2], 2));
    let (second, n2) = q.pop_front(2);
    assert_eq!((second, n2), (vec![3, 4], 2));
    assert!(q.is_empty());
}

#[test]
fn clear_drops_all_contents() {
    let mut q: SampleQueue<f32> = SampleQueue::new();
    q.push(&vec![0.5; 100]);
    assert_eq!(q.len(), 100);
    q.clear();
    assert!(q.is_empty());
    assert_eq!(q.len(), 0);
}
