use telemetry_ingest::ingest::{ingest, status_code, IngestOutcome};
use telemetry_ingest::queue::DeliveryQueue;
use telemetry_ingest::record::{AuxCode, RawAlarmEntry, RawPathEntry, RawRecord};
use telemetry_ingest::validate::Field;

fn sample_raw() -> RawRecord {
    RawRecord {
        shop_id: Some(1),
        nc_id: Some("abc".to_string()),
        timestamp: Some(1644198063000),
        part_count: Some(15),
        total_part_count: Some(131),
        status: Some("START".to_string()),
        main_program_name: Some("O0001".to_string()),
        mode: Some("MEMORY".to_string()),
        alarms: Some(vec![RawAlarmEntry {
            alarm_type: Some("nc".to_string()),
            alarm_code: Some("111".to_string()),
            alarm_message: Some("fatal error".to_string()),
        }]),
        path_data: Some(vec![RawPathEntry {
            path: Some(1),
            spindle_load_milli: Some(11100),
            spindle_override: Some(100),
            spindle_speed_milli: Some(10100),
            feed_override: Some(200),
            aux_codes: Some(vec![AuxCode {
                code: "T".to_string(),
                value: "12".to_string(),
            }]),
        }]),
    }
}

#[test]
fn valid_submission_accepted_once() {
    let mut q = DeliveryQueue::new(8);
    let out = ingest(&sample_raw(), &mut q);
    assert_eq!(out, IngestOutcome::Accepted);
    assert_eq!(status_code(&out), 202);
    assert_eq!(q.len(), 1);
    let rec = q.dequeue().expect("the accepted record is buffered");
    assert_eq!(rec.nc_id, "abc");
    assert_eq!(rec.total_part_count, 131);
}

#[test]
fn empty_path_data_rejected_with_400() {
    let mut q = DeliveryQueue::new(8);
    let mut raw = sample_raw();
    raw.path_data = Some(vec![]);
    let out = ingest(&raw, &mut q);
    assert_eq!(status_code(&out), 400);
    match out {
        IngestOutcome::Rejected(e) => {
            assert_eq!(e.field, Field::PathData);
            assert_eq!(e.field_name(), "pathData");
        }
        other => panic!("expected a rejection, got {:?}", other),
    }
    assert_eq!(q.len(), 0);
}

#[test]
fn full_queue_answers_429() {
    let mut q = DeliveryQueue::new(2);
    assert_eq!(ingest(&sample_raw(), &mut q), IngestOutcome::Accepted);
    assert_eq!(ingest(&sample_raw(), &mut q), IngestOutcome::Accepted);
    let out = ingest(&sample_raw(), &mut q);
    assert_eq!(out, IngestOutcome::Backpressure);
    assert_eq!(status_code(&out), 429);
    assert_eq!(q.len(), 2);
}

#[test]
fn rejected_record_never_queued() {
    let mut q = DeliveryQueue::new(8);
    let mut raw = sample_raw();
    raw.shop_id = None;
    let out = ingest(&raw, &mut q);
    assert_eq!(status_code(&out), 400);
    assert_eq!(q.len(), 0);
}

#[test]
fn backpressure_clears_after_dequeue() {
    let mut q = DeliveryQueue::new(1);
    assert_eq!(ingest(&sample_raw(), &mut q), IngestOutcome::Accepted);
    assert_eq!(ingest(&sample_raw(), &mut q), IngestOutcome::Backpressure);
    q.dequeue().expect("one record buffered");
    assert_eq!(ingest(&sample_raw(), &mut q), IngestOutcome::Accepted);
}
