use hazy_transport::Item;
use hazy_transport::TimeOrderedQueue;

#[test]
fn same_time() {
    let mut time_ordered = TimeOrderedQueue::<i32>::new();
    time_ordered.push(0, 5, 10);
    time_ordered.push(0, 5, 11);
    assert_eq!(time_ordered.pop_ready(0), None);
    assert_eq!(
        time_ordered.pop_ready(5),
        Some(Item {
            added_at_absolute_time: 0,
            absolute_time: 5,
            data: 10
        })
    );
    assert_eq!(
        time_ordered.pop_ready(8),
        Some(Item {
            added_at_absolute_time: 0,
            absolute_time: 5,
            data: 11
        })
    );
}

#[test]
fn insert_out_of_order() {
    let mut time_ordered = TimeOrderedQueue::<i32>::new();
    time_ordered.push(0, 100, 10);
    time_ordered.push(0, 5, 11);
    assert_eq!(time_ordered.pop_ready(0), None);
    assert_eq!(
        time_ordered.pop_ready(5),
        Some(Item {
            added_at_absolute_time: 0,
            absolute_time: 5,
            data: 11
        })
    );
    assert_eq!(
        time_ordered.pop_ready(120),
        Some(Item {
            added_at_absolute_time: 0,
            absolute_time: 100,
            data: 10
        })
    );

    assert_eq!(time_ordered.pop_ready(120), None);
}

#[test]
fn len_tracks_pushes_and_pops() {
    let mut time_ordered = TimeOrderedQueue::<i32>::new();
    assert!(time_ordered.is_empty());
    assert_eq!(time_ordered.len(), 0);
    time_ordered.push(1, 4, 7);
    time_ordered.push(1, 2, 8);
    time_ordered.push(1, 9, 9);
    assert_eq!(time_ordered.len(), 3);
    assert!(!time_ordered.is_empty());

    assert!(time_ordered.pop_ready(100).is_some());
    assert_eq!(time_ordered.len(), 2);
    assert!(time_ordered.pop_ready(100).is_some());
    assert_eq!(time_ordered.len(), 1);
    assert!(!time_ordered.is_empty());
    assert!(time_ordered.pop_ready(100).is_some());
    assert_eq!(time_ordered.len(), 0);
    assert!(time_ordered.is_empty());
    assert_eq!(time_ordered.pop_ready(100), None);
    assert_eq!(time_ordered.len(), 0);
}

#[test]
fn strictly_increasing_pushes_pop_in_order() {
    let mut time_ordered = TimeOrderedQueue::<u32>::new();
    time_ordered.push(0, 3, 30);
    time_ordered.push(0, 7, 70);
    time_ordered.push(0, 20, 200);

    // Nothing is released before its time.
    assert_eq!(time_ordered.pop_ready(2), None);

    let mut last_release = 0u64;
    let mut popped = Vec::new();
    while let Some(item) = time_ordered.pop_ready(50) {
        assert!(item.absolute_time >= last_release);
        assert!(item.absolute_time <= 50);
        last_release = item.absolute_time;
        popped.push(item.data);
    }
    assert_eq!(popped, vec![30, 70, 200]);
}
