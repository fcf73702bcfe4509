use telemetry_ingest::queue::DeliveryQueue;
use telemetry_ingest::record::MachineStatusRecord;

fn record_with_nc_id(nc_id: &str) -> MachineStatusRecord {
    MachineStatusRecord {
        shop_id: 1,
        nc_id: nc_id.to_string(),
        timestamp: 1644198063000,
        part_count: 15,
        total_part_count: 131,
        status: "START".to_string(),
        main_program_name: "O0001".to_string(),
        mode: "MEMORY".to_string(),
        alarms: vec![],
        path_data: vec![],
    }
}

#[test]
fn fifo_order_kept() {
    let mut q = DeliveryQueue::new(8);
    q.try_enqueue(record_with_nc_id("a")).expect("room");
    q.try_enqueue(record_with_nc_id("b")).expect("room");
    q.try_enqueue(record_with_nc_id("c")).expect("room");
    assert_eq!(q.dequeue().expect("non-empty").nc_id, "a");
    assert_eq!(q.dequeue().expect("non-empty").nc_id, "b");
    assert_eq!(q.dequeue().expect("non-empty").nc_id, "c");
    assert!(q.dequeue().is_none());
}

#[test]
fn enqueue_fails_immediately_when_full() {
    let mut q = DeliveryQueue::new(2);
    q.try_enqueue(record_with_nc_id("a")).expect("room");
    q.try_enqueue(record_with_nc_id("b")).expect("room");
    assert!(q.try_enqueue(record_with_nc_id("c")).is_err());
    assert_eq!(q.len(), 2);
    assert_eq!(q.dequeue().expect("non-empty").nc_id, "a");
    assert_eq!(q.dequeue().expect("non-empty").nc_id, "b");
}

#[test]
fn enqueue_succeeds_again_after_dequeue() {
    let mut q = DeliveryQueue::new(1);
    q.try_enqueue(record_with_nc_id("a")).expect("room");
    assert!(q.is_full());
    assert!(q.try_enqueue(record_with_nc_id("b")).is_err());
    assert_eq!(q.dequeue().expect("non-empty").nc_id, "a");
    q.try_enqueue(record_with_nc_id("b")).expect("room again");
    assert_eq!(q.dequeue().expect("non-empty").nc_id, "b");
}

#[test]
fn new_queue_is_empty() {
    let mut q = DeliveryQueue::new(4);
    assert_eq!(q.len(), 0);
    assert_eq!(q.capacity(), 4);
    assert!(!q.is_full());
    assert!(q.dequeue().is_none());
}

#[test]
fn zero_capacity_refuses_everything() {
    let mut q = DeliveryQueue::new(0);
    assert!(q.is_full());
    assert!(q.try_enqueue(record_with_nc_id("a")).is_err());
    assert!(q.dequeue().is_none());
}
