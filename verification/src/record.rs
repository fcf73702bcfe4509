//! Data model for machine-status telemetry.
//!
//! A `MachineStatusRecord` is one snapshot of a machine controller's state.
//! Raw counterparts (`RawRecord`, `RawAlarmEntry`, `RawPathEntry`) hold every
//! field as an `Option`: they are what a decoded payload looks like before the
//! validator has checked that the required fields are present. Spindle load
//! and spindle speed are carried as fixed-point thousandths so that the
//! validator's range checks are exact integer comparisons.

use vstd::prelude::*;

verus! {

/// One alarm reported by the controller. All fields are required and
/// non-empty once validated.
#[derive(Debug)]
pub struct AlarmEntry {
    pub alarm_type: String,
    pub alarm_code: String,
    pub alarm_message: String,
}

/// One auxiliary code: a code-letter string mapped to a value string.
#[derive(Debug)]
pub struct AuxCode {
    pub code: String,
    pub value: String,
}

/// One machining path's snapshot. `spindle_load_milli` and
/// `spindle_speed_milli` are thousandths of the reported value.
#[derive(Debug)]
pub struct PathEntry {
    pub path: i32,
    pub spindle_load_milli: i64,
    pub spindle_override: i32,
    pub spindle_speed_milli: i64,
    pub feed_override: i32,
    pub aux_codes: Vec<AuxCode>,
}

/// A validated machine-status record, immutable once accepted.
#[derive(Debug)]
pub struct MachineStatusRecord {
    pub shop_id: i32,
    pub nc_id: String,
    pub timestamp: i64,
    pub part_count: i32,
    pub total_part_count: i32,
    pub status: String,
    pub main_program_name: String,
    pub mode: String,
    pub alarms: Vec<AlarmEntry>,
    pub path_data: Vec<PathEntry>,
}

/// An alarm entry as decoded from a payload, before validation.
#[derive(Debug)]
pub struct RawAlarmEntry {
    pub alarm_type: Option<String>,
    pub alarm_code: Option<String>,
    pub alarm_message: Option<String>,
}

/// A path entry as decoded from a payload, before validation.
#[derive(Debug)]
pub struct RawPathEntry {
    pub path: Option<i32>,
    pub spindle_load_milli: Option<i64>,
    pub spindle_override: Option<i32>,
    pub spindle_speed_milli: Option<i64>,
    pub feed_override: Option<i32>,
    pub aux_codes: Option<Vec<AuxCode>>,
}

/// A record as decoded from a payload, before validation.
#[derive(Debug)]
pub struct RawRecord {
    pub shop_id: Option<i32>,
    pub nc_id: Option<String>,
    pub timestamp: Option<i64>,
    pub part_count: Option<i32>,
    pub total_part_count: Option<i32>,
    pub status: Option<String>,
    pub main_program_name: Option<String>,
    pub mode: Option<String>,
    pub alarms: Option<Vec<RawAlarmEntry>>,
    pub path_data: Option<Vec<RawPathEntry>>,
}

/// The validated alarm carries exactly the raw alarm's fields.
pub open spec fn alarm_decodes(raw: RawAlarmEntry, a: AlarmEntry) -> bool {
    &&& raw.alarm_type is Some && a.alarm_type@ == raw.alarm_type.unwrap()@
    &&& raw.alarm_code is Some && a.alarm_code@ == raw.alarm_code.unwrap()@
    &&& raw.alarm_message is Some && a.alarm_message@ == raw.alarm_message.unwrap()@
}

pub open spec fn aux_codes_match(xs: Seq<AuxCode>, ys: Seq<AuxCode>) -> bool {
    &&& xs.len() == ys.len()
    &&& forall|i: int|
        0 <= i < xs.len() ==> #[trigger] xs[i].code@ == ys[i].code@ && xs[i].value@ == ys[i].value@
}

/// The validated path entry carries exactly the raw entry's fields.
pub open spec fn path_decodes(raw: RawPathEntry, p: PathEntry) -> bool {
    &&& raw.path is Some && p.path == raw.path.unwrap()
    &&& raw.spindle_load_milli is Some && p.spindle_load_milli == raw.spindle_load_milli.unwrap()
    &&& raw.spindle_override is Some && p.spindle_override == raw.spindle_override.unwrap()
    &&& raw.spindle_speed_milli is Some && p.spindle_speed_milli == raw.spindle_speed_milli.unwrap()
    &&& raw.feed_override is Some && p.feed_override == raw.feed_override.unwrap()
    &&& raw.aux_codes is Some && aux_codes_match(p.aux_codes@, raw.aux_codes.unwrap()@)
}

/// Two alarms carry the same values.
pub open spec fn alarms_agree(x: AlarmEntry, y: AlarmEntry) -> bool {
    &&& x.alarm_type@ == y.alarm_type@
    &&& x.alarm_code@ == y.alarm_code@
    &&& x.alarm_message@ == y.alarm_message@
}

/// Two path entries carry the same values.
pub open spec fn paths_agree(x: PathEntry, y: PathEntry) -> bool {
    &&& x.path == y.path
    &&& x.spindle_load_milli == y.spindle_load_milli
    &&& x.spindle_override == y.spindle_override
    &&& x.spindle_speed_milli == y.spindle_speed_milli
    &&& x.feed_override == y.feed_override
    &&& aux_codes_match(x.aux_codes@, y.aux_codes@)
}

/// Two records carry the same values, field for field.
pub open spec fn records_agree(x: MachineStatusRecord, y: MachineStatusRecord) -> bool {
    &&& x.shop_id == y.shop_id
    &&& x.nc_id@ == y.nc_id@
    &&& x.timestamp == y.timestamp
    &&& x.part_count == y.part_count
    &&& x.total_part_count == y.total_part_count
    &&& x.status@ == y.status@
    &&& x.main_program_name@ == y.main_program_name@
    &&& x.mode@ == y.mode@
    &&& x.alarms@.len() == y.alarms@.len()
    &&& forall|i: int| 0 <= i < x.alarms@.len() ==> alarms_agree(#[trigger] x.alarms@[i], y.alarms@[i])
    &&& x.path_data@.len() == y.path_data@.len()
    &&& forall|i: int|
        0 <= i < x.path_data@.len() ==> paths_agree(#[trigger] x.path_data@[i], y.path_data@[i])
}

/// The validated record carries exactly the raw record's fields,
/// field for field: the round trip loses nothing.
pub open spec fn record_decodes(raw: RawRecord, r: MachineStatusRecord) -> bool {
    &&& raw.shop_id is Some && r.shop_id == raw.shop_id.unwrap()
    &&& raw.nc_id is Some && r.nc_id@ == raw.nc_id.unwrap()@
    &&& raw.timestamp is Some && r.timestamp == raw.timestamp.unwrap()
    &&& raw.part_count is Some && r.part_count == raw.part_count.unwrap()
    &&& raw.total_part_count is Some && r.total_part_count == raw.total_part_count.unwrap()
    &&& raw.status is Some && r.status@ == raw.status.unwrap()@
    &&& raw.main_program_name is Some && r.main_program_name@ == raw.main_program_name.unwrap()@
    &&& raw.mode is Some && r.mode@ == raw.mode.unwrap()@
    &&& raw.alarms is Some && r.alarms@.len() == raw.alarms.unwrap()@.len()
    &&& forall|i: int|
        0 <= i < r.alarms@.len() ==> #[trigger] alarm_decodes(raw.alarms.unwrap()@[i], r.alarms@[i])
    &&& raw.path_data is Some && r.path_data@.len() == raw.path_data.unwrap()@.len()
    &&& forall|i: int|
        0 <= i < r.path_data@.len() ==> #[trigger] path_decodes(
            raw.path_data.unwrap()@[i],
            r.path_data@[i],
        )
}

} // verus!
