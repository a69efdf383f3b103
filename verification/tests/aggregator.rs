use packet_ingest::aggregator::Aggregator;
use packet_ingest::message::PacketData;

fn reading(i: u32) -> PacketData {
    PacketData { timestamp: i as i64 * 1000, value: i }
}

#[test]
fn size_flush_fires_on_the_sixty_fourth_record() {
    let mut agg: Aggregator<PacketData> = Aggregator::new(64, 200, 1000);
    for i in 0..63u32 {
        let now = 1000 + (i as u64 * 50) / 63;
        assert_eq!(agg.offer(reading(i), now), None);
    }
    assert_eq!(agg.len(), 63);
    let batch = agg.offer(reading(63), 1050).expect("the size trigger fires");
    assert_eq!(batch.len(), 64);
    for (i, r) in batch.iter().enumerate() {
        assert_eq!(*r, reading(i as u32));
    }
    assert_eq!(agg.len(), 0);
    assert_eq!(agg.last_flush(), 1050);
}

#[test]
fn time_flush_fires_after_the_interval() {
    let mut agg: Aggregator<PacketData> = Aggregator::new(64, 200, 0);
    for i in 0..10u32 {
        assert_eq!(agg.offer(reading(i), i as u64), None);
    }
    assert_eq!(agg.poll(100), None);
    let batch = agg.poll(250).expect("the time trigger fires");
    assert_eq!(batch.len(), 10);
    assert_eq!(batch[0], reading(0));
    assert_eq!(batch[9], reading(9));
    assert_eq!(agg.len(), 0);
    assert_eq!(agg.last_flush(), 250);
}

#[test]
fn no_flush_below_both_thresholds() {
    let mut agg: Aggregator<u32> = Aggregator::new(5, 100, 10);
    assert_eq!(agg.offer(1, 20), None);
    assert_eq!(agg.offer(2, 60), None);
    assert_eq!(agg.offer(3, 110), None);
    assert_eq!(agg.poll(110), None);
    assert_eq!(agg.len(), 3);
    assert_eq!(agg.last_flush(), 10);
}

#[test]
fn interval_must_be_exceeded() {
    let mut agg: Aggregator<u32> = Aggregator::new(5, 100, 10);
    assert_eq!(agg.push(7, 10), None);
    assert_eq!(agg.poll(110), None);
    assert_eq!(agg.poll(111), Some(vec![7]));
}

#[test]
fn time_flush_needs_a_record() {
    let mut agg: Aggregator<u32> = Aggregator::new(5, 100, 0);
    assert_eq!(agg.poll(5000), None);
    assert_eq!(agg.last_flush(), 0);
    assert_eq!(agg.offer(1, 5000), Some(vec![1]));
    assert_eq!(agg.last_flush(), 5000);
}

#[test]
fn size_flush_ignores_the_clock() {
    let mut early: Aggregator<u32> = Aggregator::new(3, 1000, 0);
    let mut late: Aggregator<u32> = Aggregator::new(3, 1000, 0);
    assert_eq!(early.push(1, 0), None);
    assert_eq!(early.push(2, 0), None);
    assert_eq!(early.push(3, 0), Some(vec![1, 2, 3]));
    assert_eq!(late.push(1, 900000), None);
    assert_eq!(late.push(2, 900001), None);
    assert_eq!(late.push(3, 900002), Some(vec![1, 2, 3]));
}

#[test]
fn push_alone_never_flushes_on_time() {
    let mut agg: Aggregator<u32> = Aggregator::new(3, 10, 0);
    assert_eq!(agg.push(1, 1000), None);
    assert_eq!(agg.push(2, 2000), None);
    assert_eq!(agg.len(), 2);
}

#[test]
fn buffer_starts_again_after_a_flush() {
    let mut agg: Aggregator<u32> = Aggregator::new(2, 100, 0);
    assert_eq!(agg.offer(1, 1), None);
    assert_eq!(agg.offer(2, 2), Some(vec![1, 2]));
    assert_eq!(agg.offer(3, 3), None);
    assert_eq!(agg.offer(4, 4), Some(vec![3, 4]));
}

#[test]
fn threshold_of_zero_flushes_each_record() {
    let mut agg: Aggregator<u32> = Aggregator::new(0, 100, 0);
    assert_eq!(agg.push(1, 0), Some(vec![1]));
    assert_eq!(agg.push(2, 0), Some(vec![2]));
}

#[test]
fn clock_that_reads_earlier_counts_as_no_time() {
    let mut agg: Aggregator<u32> = Aggregator::new(5, 0, 100);
    assert_eq!(agg.push(1, 50), None);
    assert_eq!(agg.poll(50), None);
    assert_eq!(agg.poll(100), None);
    assert_eq!(agg.poll(101), Some(vec![1]));
}

#[test]
fn thresholds_are_per_instance() {
    let mut store: Aggregator<u32> = Aggregator::new(10000, 100, 0);
    let mut live: Aggregator<u32> = Aggregator::new(64, 200, 0);
    assert_eq!(store.offer(1, 150), Some(vec![1]));
    assert_eq!(live.offer(1, 150), None);
}
