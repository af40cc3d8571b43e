use db_write_behind::upload_queue::UploadQueue;

fn numbers(from: u32, to: u32) -> Vec<u32> {
    (from..to).collect()
}

#[test]
fn new_queue_is_empty_and_untouched() {
    let q: UploadQueue<u32> = UploadQueue::new();
    assert_eq!(q.get_count(), 0);
    assert!(q.queue.is_none());
}

#[test]
fn take_from_untouched_queue_gives_nothing() {
    let mut q: UploadQueue<u32> = UploadQueue::new();
    assert_eq!(q.get_items_to_upload(15), None);
    assert!(q.queue.is_none());
    assert_eq!(q.get_count(), 0);
}

#[test]
fn take_from_emptied_queue_gives_empty_batch() {
    let mut q: UploadQueue<u32> = UploadQueue::new();
    q.add(vec![1, 2]);
    assert_eq!(q.get_items_to_upload(15), Some(vec![1, 2]));
    assert_eq!(q.get_items_to_upload(15), Some(vec![]));
    assert_eq!(q.get_count(), 0);
}

#[test]
fn add_of_nothing_still_creates_the_buffer() {
    let mut q: UploadQueue<u32> = UploadQueue::new();
    q.add(vec![]);
    assert_eq!(q.get_count(), 0);
    assert_eq!(q.get_items_to_upload(3), Some(vec![]));
}

#[test]
fn add_keeps_order_across_calls() {
    let mut q: UploadQueue<u32> = UploadQueue::new();
    q.add(vec![5, 3]);
    q.add(vec![9]);
    q.add(vec![1, 7]);
    assert_eq!(q.get_count(), 5);
    assert_eq!(q.queue, Some(vec![5, 3, 9, 1, 7]));
}

#[test]
fn take_more_than_max_leaves_the_rest_in_order() {
    let mut q: UploadQueue<u32> = UploadQueue::new();
    q.add(numbers(0, 7));
    assert_eq!(q.get_items_to_upload(3), Some(vec![0, 1, 2]));
    assert_eq!(q.get_count(), 4);
    assert_eq!(q.queue, Some(vec![3, 4, 5, 6]));
}

#[test]
fn take_at_most_max_drains_everything() {
    let mut q: UploadQueue<u32> = UploadQueue::new();
    q.add(numbers(0, 4));
    assert_eq!(q.get_items_to_upload(4), Some(vec![0, 1, 2, 3]));
    assert_eq!(q.get_count(), 0);

    q.add(vec![8]);
    assert_eq!(q.get_items_to_upload(15), Some(vec![8]));
    assert_eq!(q.queue, Some(vec![]));
}

#[test]
fn take_with_zero_max_takes_nothing_from_a_full_queue() {
    let mut q: UploadQueue<u32> = UploadQueue::new();
    q.add(vec![1, 2]);
    assert_eq!(q.get_items_to_upload(0), Some(vec![]));
    assert_eq!(q.get_count(), 2);
}

#[test]
fn twenty_items_drain_in_batches_of_fifteen_then_five() {
    let mut q: UploadQueue<u32> = UploadQueue::new();
    q.add(numbers(0, 20));
    assert_eq!(q.get_count(), 20);

    let first = q.get_items_to_upload(15).unwrap();
    assert_eq!(first, numbers(0, 15));
    assert_eq!(q.get_count(), 5);

    let second = q.get_items_to_upload(15).unwrap();
    assert_eq!(second, numbers(15, 20));
    assert_eq!(q.get_count(), 0);
}

#[test]
fn count_is_enqueued_minus_drained_after_each_step() {
    let mut q: UploadQueue<u32> = UploadQueue::new();
    let mut enqueued: usize = 0;
    let mut drained: usize = 0;

    q.add(numbers(0, 6));
    enqueued += 6;
    assert_eq!(q.get_count(), enqueued - drained);

    drained += q.get_items_to_upload(4).unwrap().len();
    assert_eq!(q.get_count(), enqueued - drained);

    q.add(numbers(6, 9));
    enqueued += 3;
    assert_eq!(q.get_count(), enqueued - drained);

    drained += q.get_items_to_upload(10).unwrap().len();
    assert_eq!(q.get_count(), enqueued - drained);
    assert_eq!(q.get_count(), 0);
}

#[test]
fn interleaved_producers_neither_lose_nor_duplicate_items() {
    let mut q: UploadQueue<(u32, u32)> = UploadQueue::new();
    let mut taken: Vec<(u32, u32)> = Vec::new();

    q.add(vec![(1, 0), (1, 1)]);
    q.add(vec![(2, 0)]);
    taken.extend(q.get_items_to_upload(2).unwrap());
    q.add(vec![(3, 0), (3, 1), (3, 2)]);
    q.add(vec![(1, 2)]);
    taken.extend(q.get_items_to_upload(3).unwrap());
    q.add(vec![(2, 1)]);

    let mut all = taken.clone();
    all.extend(q.queue.clone().unwrap());
    assert_eq!(
        all,
        vec![(1, 0), (1, 1), (2, 0), (3, 0), (3, 1), (3, 2), (1, 2), (2, 1)]
    );
    assert_eq!(q.get_count(), 8 - taken.len());
}
