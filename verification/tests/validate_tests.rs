use telemetry_ingest::record::{AuxCode, RawAlarmEntry, RawPathEntry, RawRecord};
use telemetry_ingest::validate::{validate, Constraint, Field};

fn sample_raw() -> RawRecord {
    RawRecord {
        shop_id: Some(1),
        nc_id: Some("abc".to_string()),
        timestamp: Some(1644198063000),
        part_count: Some(15),
        total_part_count: Some(131),
        status: Some("START".to_string()),
        main_program_name: Some("O0001".to_string()),
        mode: Some("MEMORY".to_string()),
        alarms: Some(vec![RawAlarmEntry {
            alarm_type: Some("nc".to_string()),
            alarm_code: Some("111".to_string()),
            alarm_message: Some("fatal error".to_string()),
        }]),
        path_data: Some(vec![RawPathEntry {
            path: Some(1),
            spindle_load_milli: Some(11100),
            spindle_override: Some(100),
            spindle_speed_milli: Some(10100),
            feed_override: Some(200),
            aux_codes: Some(vec![AuxCode {
                code: "T".to_string(),
                value: "12".to_string(),
            }]),
        }]),
    }
}

#[test]
fn valid_record_round_trip() {
    let raw = sample_raw();
    let rec = validate(&raw).expect("the sample payload is valid");
    assert_eq!(rec.shop_id, 1);
    assert_eq!(rec.nc_id, "abc");
    assert_eq!(rec.timestamp, 1644198063000);
    assert_eq!(rec.part_count, 15);
    assert_eq!(rec.total_part_count, 131);
    assert_eq!(rec.status, "START");
    assert_eq!(rec.main_program_name, "O0001");
    assert_eq!(rec.mode, "MEMORY");
    assert_eq!(rec.alarms.len(), 1);
    assert_eq!(rec.alarms[0].alarm_type, "nc");
    assert_eq!(rec.alarms[0].alarm_code, "111");
    assert_eq!(rec.alarms[0].alarm_message, "fatal error");
    assert_eq!(rec.path_data.len(), 1);
    assert_eq!(rec.path_data[0].path, 1);
    assert_eq!(rec.path_data[0].spindle_load_milli, 11100);
    assert_eq!(rec.path_data[0].spindle_override, 100);
    assert_eq!(rec.path_data[0].spindle_speed_milli, 10100);
    assert_eq!(rec.path_data[0].feed_override, 200);
    assert_eq!(rec.path_data[0].aux_codes.len(), 1);
    assert_eq!(rec.path_data[0].aux_codes[0].code, "T");
    assert_eq!(rec.path_data[0].aux_codes[0].value, "12");
}

#[test]
fn missing_shop_id_named() {
    let mut raw = sample_raw();
    raw.shop_id = None;
    let e = validate(&raw).unwrap_err();
    assert_eq!(e.field, Field::ShopId);
    assert_eq!(e.constraint, Constraint::Missing);
}

#[test]
fn missing_nc_id_named() {
    let mut raw = sample_raw();
    raw.nc_id = None;
    let e = validate(&raw).unwrap_err();
    assert_eq!(e.field, Field::NcId);
    assert_eq!(e.constraint, Constraint::Missing);
}

#[test]
fn missing_timestamp_named() {
    let mut raw = sample_raw();
    raw.timestamp = None;
    let e = validate(&raw).unwrap_err();
    assert_eq!(e.field, Field::Timestamp);
    assert_eq!(e.constraint, Constraint::Missing);
}

#[test]
fn missing_mode_named() {
    let mut raw = sample_raw();
    raw.mode = None;
    let e = validate(&raw).unwrap_err();
    assert_eq!(e.field, Field::Mode);
    assert_eq!(e.constraint, Constraint::Missing);
}

#[test]
fn missing_alarm_message_named() {
    let mut raw = sample_raw();
    raw.alarms.as_mut().unwrap()[0].alarm_message = None;
    let e = validate(&raw).unwrap_err();
    assert_eq!(e.field, Field::AlarmMessage);
    assert_eq!(e.constraint, Constraint::Missing);
}

#[test]
fn missing_aux_codes_named() {
    let mut raw = sample_raw();
    raw.path_data.as_mut().unwrap()[0].aux_codes = None;
    let e = validate(&raw).unwrap_err();
    assert_eq!(e.field, Field::AuxCodes);
    assert_eq!(e.constraint, Constraint::Missing);
}

#[test]
fn first_missing_field_wins() {
    let mut raw = sample_raw();
    raw.nc_id = None;
    raw.mode = None;
    let e = validate(&raw).unwrap_err();
    assert_eq!(e.field, Field::NcId);
    assert_eq!(e.constraint, Constraint::Missing);
}

#[test]
fn cross_field_part_counts() {
    let mut raw = sample_raw();
    raw.part_count = Some(15);
    raw.total_part_count = Some(5);
    let e = validate(&raw).unwrap_err();
    assert_eq!(e.field, Field::TotalPartCount);
    assert_eq!(e.constraint, Constraint::CrossField);
}

#[test]
fn negative_shop_id_out_of_range() {
    let mut raw = sample_raw();
    raw.shop_id = Some(-1);
    let e = validate(&raw).unwrap_err();
    assert_eq!(e.field, Field::ShopId);
    assert_eq!(e.constraint, Constraint::OutOfRange);
}

#[test]
fn zero_timestamp_out_of_range() {
    let mut raw = sample_raw();
    raw.timestamp = Some(0);
    let e = validate(&raw).unwrap_err();
    assert_eq!(e.field, Field::Timestamp);
    assert_eq!(e.constraint, Constraint::OutOfRange);
}

#[test]
fn empty_nc_id_rejected() {
    let mut raw = sample_raw();
    raw.nc_id = Some(String::new());
    let e = validate(&raw).unwrap_err();
    assert_eq!(e.field, Field::NcId);
    assert_eq!(e.constraint, Constraint::Empty);
}

#[test]
fn unknown_status_token_rejected() {
    let mut raw = sample_raw();
    raw.status = Some("RUNNING".to_string());
    let e = validate(&raw).unwrap_err();
    assert_eq!(e.field, Field::Status);
    assert_eq!(e.constraint, Constraint::UnknownToken);
}

#[test]
fn stop_and_alarm_tokens_accepted() {
    let mut raw = sample_raw();
    raw.status = Some("STOP".to_string());
    assert!(validate(&raw).is_ok());
    raw.status = Some("ALARM".to_string());
    assert!(validate(&raw).is_ok());
}

#[test]
fn empty_path_data_rejected() {
    let mut raw = sample_raw();
    raw.path_data = Some(vec![]);
    let e = validate(&raw).unwrap_err();
    assert_eq!(e.field, Field::PathData);
    assert_eq!(e.constraint, Constraint::Empty);
    assert_eq!(e.field_name(), "pathData");
    assert_eq!(e.message(), "pathData: value must not be empty");
}

#[test]
fn duplicate_path_numbers_rejected() {
    let mut raw = sample_raw();
    let second = RawPathEntry {
        path: Some(1),
        spindle_load_milli: Some(0),
        spindle_override: Some(0),
        spindle_speed_milli: Some(0),
        feed_override: Some(0),
        aux_codes: Some(vec![]),
    };
    raw.path_data.as_mut().unwrap().push(second);
    let e = validate(&raw).unwrap_err();
    assert_eq!(e.field, Field::Path);
    assert_eq!(e.constraint, Constraint::NotUnique);
}

#[test]
fn distinct_path_numbers_accepted() {
    let mut raw = sample_raw();
    let second = RawPathEntry {
        path: Some(2),
        spindle_load_milli: Some(0),
        spindle_override: Some(0),
        spindle_speed_milli: Some(0),
        feed_override: Some(0),
        aux_codes: Some(vec![]),
    };
    raw.path_data.as_mut().unwrap().push(second);
    assert!(validate(&raw).is_ok());
}

#[test]
fn duplicate_aux_code_keys_rejected() {
    let mut raw = sample_raw();
    raw.path_data.as_mut().unwrap()[0].aux_codes = Some(vec![
        AuxCode { code: "T".to_string(), value: "12".to_string() },
        AuxCode { code: "T".to_string(), value: "34".to_string() },
    ]);
    let e = validate(&raw).unwrap_err();
    assert_eq!(e.field, Field::AuxCodes);
    assert_eq!(e.constraint, Constraint::NotUnique);
}

#[test]
fn spindle_override_out_of_range() {
    let mut raw = sample_raw();
    raw.path_data.as_mut().unwrap()[0].spindle_override = Some(1000);
    let e = validate(&raw).unwrap_err();
    assert_eq!(e.field, Field::SpindleOverride);
    assert_eq!(e.constraint, Constraint::OutOfRange);
}

#[test]
fn negative_spindle_load_out_of_range() {
    let mut raw = sample_raw();
    raw.path_data.as_mut().unwrap()[0].spindle_load_milli = Some(-1);
    let e = validate(&raw).unwrap_err();
    assert_eq!(e.field, Field::SpindleLoad);
    assert_eq!(e.constraint, Constraint::OutOfRange);
}

#[test]
fn empty_alarm_code_rejected() {
    let mut raw = sample_raw();
    raw.alarms.as_mut().unwrap()[0].alarm_code = Some(String::new());
    let e = validate(&raw).unwrap_err();
    assert_eq!(e.field, Field::AlarmCode);
    assert_eq!(e.constraint, Constraint::Empty);
}

#[test]
fn empty_alarms_list_accepted() {
    let mut raw = sample_raw();
    raw.alarms = Some(vec![]);
    assert!(validate(&raw).is_ok());
}

#[test]
fn validation_is_idempotent_on_failure() {
    let mut raw = sample_raw();
    raw.total_part_count = Some(5);
    let e1 = validate(&raw).unwrap_err();
    let e2 = validate(&raw).unwrap_err();
    assert_eq!(e1, e2);
}

#[test]
fn validation_is_idempotent_on_success() {
    let raw = sample_raw();
    let r1 = validate(&raw).expect("valid");
    let r2 = validate(&raw).expect("valid");
    assert_eq!(r1.shop_id, r2.shop_id);
    assert_eq!(r1.nc_id, r2.nc_id);
    assert_eq!(r1.timestamp, r2.timestamp);
    assert_eq!(r1.part_count, r2.part_count);
    assert_eq!(r1.total_part_count, r2.total_part_count);
    assert_eq!(r1.status, r2.status);
    assert_eq!(r1.main_program_name, r2.main_program_name);
    assert_eq!(r1.mode, r2.mode);
    assert_eq!(r1.alarms.len(), r2.alarms.len());
    assert_eq!(r1.alarms[0].alarm_type, r2.alarms[0].alarm_type);
    assert_eq!(r1.path_data.len(), r2.path_data.len());
    assert_eq!(r1.path_data[0].path, r2.path_data[0].path);
}
