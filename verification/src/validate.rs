//! Schema validation for machine-status records.
//!
//! `validate` checks a raw payload in three phases, failing fast on the first
//! violation: structural well-formedness (every required field present), then
//! field-level constraints (ranges, non-emptiness, status-token membership,
//! unique auxiliary-code keys), then cross-field constraints (total part count
//! at least the part count, unique path numbers, non-empty path data). The
//! error names the offending field and the violated constraint. Validation is
//! a pure function of its input: it neither keeps nor changes any state.

use vstd::prelude::*;

use crate::record::AlarmEntry;
use crate::record::AuxCode;
use crate::record::MachineStatusRecord;
use crate::record::PathEntry;
use crate::record::RawAlarmEntry;
use crate::record::RawPathEntry;
use crate::record::RawRecord;
use crate::record::alarm_decodes;
use crate::record::aux_codes_match;
use crate::record::path_decodes;
use crate::record::record_decodes;

verus! {

/// The field that a validation error is about, by its name in the payload.
#[derive(Clone, Copy, Debug, PartialEq, Eq, Structural)]
pub enum Field {
    ShopId,
    NcId,
    Timestamp,
    PartCount,
    TotalPartCount,
    Status,
    MainProgramName,
    Mode,
    Alarms,
    PathData,
    AlarmType,
    AlarmCode,
    AlarmMessage,
    Path,
    SpindleLoad,
    SpindleOverride,
    SpindleSpeed,
    FeedOverride,
    AuxCodes,
}

/// The constraint that a validation error reports as violated.
#[derive(Clone, Copy, Debug, PartialEq, Eq, Structural)]
pub enum Constraint {
    /// A required field is absent.
    Missing,
    /// A numeric field is outside its allowed range.
    OutOfRange,
    /// A field that must not be empty is empty.
    Empty,
    /// The status token is not one of the known tokens.
    UnknownToken,
    /// A value that must be unique within the record repeats.
    NotUnique,
    /// The total part count is below the part count.
    CrossField,
}

/// A rejected payload's reason: the offending field and the violated
/// constraint. Recoverable by the caller: fix the payload and resend.
#[derive(Clone, Copy, Debug, PartialEq, Eq, Structural)]
pub struct ValidationError {
    pub field: Field,
    pub constraint: Constraint,
}

/// The payload name of each field, as the schema writes it.
pub open spec fn spec_field_name(f: Field) -> Seq<char> {
    match f {
        Field::ShopId => "shopId"@,
        Field::NcId => "ncId"@,
        Field::Timestamp => "timestamp"@,
        Field::PartCount => "partCount"@,
        Field::TotalPartCount => "totalPartCount"@,
        Field::Status => "status"@,
        Field::MainProgramName => "mainProgramName"@,
        Field::Mode => "mode"@,
        Field::Alarms => "alarms"@,
        Field::PathData => "pathData"@,
        Field::AlarmType => "alarmType"@,
        Field::AlarmCode => "alarmCode"@,
        Field::AlarmMessage => "alarmMessage"@,
        Field::Path => "path"@,
        Field::SpindleLoad => "spindleLoad"@,
        Field::SpindleOverride => "spindleOverride"@,
        Field::SpindleSpeed => "spindleSpeed"@,
        Field::FeedOverride => "feedOverride"@,
        Field::AuxCodes => "auxCodes"@,
    }
}

/// A short sentence for each constraint.
pub open spec fn spec_constraint_text(c: Constraint) -> Seq<char> {
    match c {
        Constraint::Missing => "required field is missing"@,
        Constraint::OutOfRange => "value is out of range"@,
        Constraint::Empty => "value must not be empty"@,
        Constraint::UnknownToken => "unknown status token"@,
        Constraint::NotUnique => "values must be unique"@,
        Constraint::CrossField => "totalPartCount must be at least partCount"@,
    }
}

impl ValidationError {
    /// The offending field's payload name.
    pub fn field_name(&self) -> (s: String)
        ensures
            s@ == spec_field_name(self.field),
    {
        match self.field {
            Field::ShopId => String::from_str("shopId"),
            Field::NcId => String::from_str("ncId"),
            Field::Timestamp => String::from_str("timestamp"),
            Field::PartCount => String::from_str("partCount"),
            Field::TotalPartCount => String::from_str("totalPartCount"),
            Field::Status => String::from_str("status"),
            Field::MainProgramName => String::from_str("mainProgramName"),
            Field::Mode => String::from_str("mode"),
            Field::Alarms => String::from_str("alarms"),
            Field::PathData => String::from_str("pathData"),
            Field::AlarmType => String::from_str("alarmType"),
            Field::AlarmCode => String::from_str("alarmCode"),
            Field::AlarmMessage => String::from_str("alarmMessage"),
            Field::Path => String::from_str("path"),
            Field::SpindleLoad => String::from_str("spindleLoad"),
            Field::SpindleOverride => String::from_str("spindleOverride"),
            Field::SpindleSpeed => String::from_str("spindleSpeed"),
            Field::FeedOverride => String::from_str("feedOverride"),
            Field::AuxCodes => String::from_str("auxCodes"),
        }
    }

    /// The violated constraint, in words.
    pub fn constraint_text(&self) -> (s: String)
        ensures
            s@ == spec_constraint_text(self.constraint),
    {
        match self.constraint {
            Constraint::Missing => String::from_str("required field is missing"),
            Constraint::OutOfRange => String::from_str("value is out of range"),
            Constraint::Empty => String::from_str("value must not be empty"),
            Constraint::UnknownToken => String::from_str("unknown status token"),
            Constraint::NotUnique => String::from_str("values must be unique"),
            Constraint::CrossField => String::from_str(
                "totalPartCount must be at least partCount",
            ),
        }
    }

    /// The whole rejection message: the field's name, then the constraint.
    pub fn message(&self) -> (s: String)
        ensures
            s@ == spec_field_name(self.field) + ": "@ + spec_constraint_text(self.constraint),
    {
        let c = self.constraint_text();
        self.field_name().concat(": ").concat(c.as_str())
    }
}

/// First missing field of one raw alarm entry, in field order.
pub open spec fn alarm_missing(a: RawAlarmEntry) -> Option<Field> {
    if a.alarm_type is None {
        Some(Field::AlarmType)
    } else if a.alarm_code is None {
        Some(Field::AlarmCode)
    } else if a.alarm_message is None {
        Some(Field::AlarmMessage)
    } else {
        None
    }
}

/// First missing field among the alarm entries from index `i` on.
pub open spec fn alarms_missing_from(s: Seq<RawAlarmEntry>, i: int) -> Option<Field>
    decreases s.len() - i,
{
    if i < 0 || i >= s.len() {
        None
    } else if alarm_missing(s[i]) is Some {
        alarm_missing(s[i])
    } else {
        alarms_missing_from(s, i + 1)
    }
}

/// First missing field of one raw path entry, in field order.
pub open spec fn path_missing(p: RawPathEntry) -> Option<Field> {
    if p.path is None {
        Some(Field::Path)
    } else if p.spindle_load_milli is None {
        Some(Field::SpindleLoad)
    } else if p.spindle_override is None {
        Some(Field::SpindleOverride)
    } else if p.spindle_speed_milli is None {
        Some(Field::SpindleSpeed)
    } else if p.feed_override is None {
        Some(Field::FeedOverride)
    } else if p.aux_codes is None {
        Some(Field::AuxCodes)
    } else {
        None
    }
}

/// First missing field among the path entries from index `i` on.
pub open spec fn paths_missing_from(s: Seq<RawPathEntry>, i: int) -> Option<Field>
    decreases s.len() - i,
{
    if i < 0 || i >= s.len() {
        None
    } else if path_missing(s[i]) is Some {
        path_missing(s[i])
    } else {
        paths_missing_from(s, i + 1)
    }
}

/// First missing required field of the whole record, in field order;
/// `None` when the record is structurally complete.
pub open spec fn missing_field(raw: RawRecord) -> Option<Field> {
    if raw.shop_id is None {
        Some(Field::ShopId)
    } else if raw.nc_id is None {
        Some(Field::NcId)
    } else if raw.timestamp is None {
        Some(Field::Timestamp)
    } else if raw.part_count is None {
        Some(Field::PartCount)
    } else if raw.total_part_count is None {
        Some(Field::TotalPartCount)
    } else if raw.status is None {
        Some(Field::Status)
    } else if raw.main_program_name is None {
        Some(Field::MainProgramName)
    } else if raw.mode is None {
        Some(Field::Mode)
    } else if raw.alarms is None {
        Some(Field::Alarms)
    } else if raw.path_data is None {
        Some(Field::PathData)
    } else if alarms_missing_from(raw.alarms.unwrap()@, 0) is Some {
        alarms_missing_from(raw.alarms.unwrap()@, 0)
    } else {
        paths_missing_from(raw.path_data.unwrap()@, 0)
    }
}

/// The status tokens the schema accepts.
pub open spec fn status_token_ok(s: Seq<char>) -> bool {
    s == "START"@ || s == "STOP"@ || s == "ALARM"@
}

/// First field-level violation of one alarm entry, in field order.
/// Meaningful only for a structurally complete entry.
pub open spec fn alarm_violation(a: RawAlarmEntry) -> Option<ValidationError> {
    if a.alarm_type.unwrap()@.len() == 0 {
        Some(ValidationError { field: Field::AlarmType, constraint: Constraint::Empty })
    } else if a.alarm_code.unwrap()@.len() == 0 {
        Some(ValidationError { field: Field::AlarmCode, constraint: Constraint::Empty })
    } else if a.alarm_message.unwrap()@.len() == 0 {
        Some(ValidationError { field: Field::AlarmMessage, constraint: Constraint::Empty })
    } else {
        None
    }
}

/// First field-level violation among the alarm entries from index `i` on.
pub open spec fn alarms_violation_from(s: Seq<RawAlarmEntry>, i: int) -> Option<ValidationError>
    decreases s.len() - i,
{
    if i < 0 || i >= s.len() {
        None
    } else if alarm_violation(s[i]) is Some {
        alarm_violation(s[i])
    } else {
        alarms_violation_from(s, i + 1)
    }
}

/// The auxiliary-code keys of one path entry are pairwise distinct.
pub open spec fn aux_keys_unique(s: Seq<AuxCode>) -> bool {
    forall|i: int, j: int|
        #![trigger s[i].code, s[j].code]
        0 <= i < j < s.len() ==> s[i].code@ != s[j].code@
}

/// First field-level violation of one path entry, in field order.
/// Meaningful only for a structurally complete entry.
pub open spec fn path_violation(p: RawPathEntry) -> Option<ValidationError> {
    if p.path.unwrap() <= 0 {
        Some(ValidationError { field: Field::Path, constraint: Constraint::OutOfRange })
    } else if p.spindle_load_milli.unwrap() < 0 {
        Some(ValidationError { field: Field::SpindleLoad, constraint: Constraint::OutOfRange })
    } else if !(0 <= p.spindle_override.unwrap() && p.spindle_override.unwrap() <= 999) {
        Some(ValidationError { field: Field::SpindleOverride, constraint: Constraint::OutOfRange })
    } else if p.spindle_speed_milli.unwrap() < 0 {
        Some(ValidationError { field: Field::SpindleSpeed, constraint: Constraint::OutOfRange })
    } else if !(0 <= p.feed_override.unwrap() && p.feed_override.unwrap() <= 999) {
        Some(ValidationError { field: Field::FeedOverride, constraint: Constraint::OutOfRange })
    } else if !aux_keys_unique(p.aux_codes.unwrap()@) {
        Some(ValidationError { field: Field::AuxCodes, constraint: Constraint::NotUnique })
    } else {
        None
    }
}

/// First field-level violation among the path entries from index `i` on.
pub open spec fn paths_violation_from(s: Seq<RawPathEntry>, i: int) -> Option<ValidationError>
    decreases s.len() - i,
{
    if i < 0 || i >= s.len() {
        None
    } else if path_violation(s[i]) is Some {
        path_violation(s[i])
    } else {
        paths_violation_from(s, i + 1)
    }
}

/// First field-level violation of the whole record, in field order;
/// meaningful only for a structurally complete record.
pub open spec fn field_violation(raw: RawRecord) -> Option<ValidationError> {
    if raw.shop_id.unwrap() < 0 {
        Some(ValidationError { field: Field::ShopId, constraint: Constraint::OutOfRange })
    } else if raw.nc_id.unwrap()@.len() == 0 {
        Some(ValidationError { field: Field::NcId, constraint: Constraint::Empty })
    } else if raw.timestamp.unwrap() <= 0 {
        Some(ValidationError { field: Field::Timestamp, constraint: Constraint::OutOfRange })
    } else if raw.part_count.unwrap() < 0 {
        Some(ValidationError { field: Field::PartCount, constraint: Constraint::OutOfRange })
    } else if raw.total_part_count.unwrap() < 0 {
        Some(ValidationError { field: Field::TotalPartCount, constraint: Constraint::OutOfRange })
    } else if !status_token_ok(raw.status.unwrap()@) {
        Some(ValidationError { field: Field::Status, constraint: Constraint::UnknownToken })
    } else if raw.main_program_name.unwrap()@.len() == 0 {
        Some(ValidationError { field: Field::MainProgramName, constraint: Constraint::Empty })
    } else if raw.mode.unwrap()@.len() == 0 {
        Some(ValidationError { field: Field::Mode, constraint: Constraint::Empty })
    } else if alarms_violation_from(raw.alarms.unwrap()@, 0) is Some {
        alarms_violation_from(raw.alarms.unwrap()@, 0)
    } else {
        paths_violation_from(raw.path_data.unwrap()@, 0)
    }
}

/// The path numbers are pairwise distinct across the record's path entries.
pub open spec fn paths_unique(s: Seq<RawPathEntry>) -> bool {
    forall|i: int, j: int|
        #![trigger s[i].path, s[j].path]
        0 <= i < j < s.len() ==> s[i].path.unwrap() != s[j].path.unwrap()
}

/// First cross-field violation, in check order; meaningful only for a
/// structurally complete record.
pub open spec fn cross_violation(raw: RawRecord) -> Option<ValidationError> {
    if raw.total_part_count.unwrap() < raw.part_count.unwrap() {
        Some(ValidationError { field: Field::TotalPartCount, constraint: Constraint::CrossField })
    } else if !paths_unique(raw.path_data.unwrap()@) {
        Some(ValidationError { field: Field::Path, constraint: Constraint::NotUnique })
    } else if raw.path_data.unwrap()@.len() == 0 {
        Some(ValidationError { field: Field::PathData, constraint: Constraint::Empty })
    } else {
        None
    }
}

/// The first violation that `validate` reports, across the three phases;
/// `None` exactly when the payload is acceptable.
pub open spec fn first_error(raw: RawRecord) -> Option<ValidationError> {
    if missing_field(raw) is Some {
        Some(ValidationError { field: missing_field(raw).unwrap(), constraint: Constraint::Missing })
    } else if field_violation(raw) is Some {
        field_violation(raw)
    } else {
        cross_violation(raw)
    }
}

/// What `validate` returns for a given payload: success with the decoded
/// record exactly when no violation exists, else the first violation.
pub open spec fn validate_post(raw: RawRecord, r: Result<MachineStatusRecord, ValidationError>) -> bool {
    match r {
        Ok(rec) => first_error(raw) is None && record_decodes(raw, rec),
        Err(e) => first_error(raw) == Some(e),
    }
}

/// One raw alarm entry is complete and meets its field-level constraints.
pub open spec fn alarm_acceptable(a: RawAlarmEntry) -> bool {
    &&& a.alarm_type is Some && a.alarm_type.unwrap()@.len() > 0
    &&& a.alarm_code is Some && a.alarm_code.unwrap()@.len() > 0
    &&& a.alarm_message is Some && a.alarm_message.unwrap()@.len() > 0
}

/// One raw path entry is complete and meets its field-level constraints.
pub open spec fn path_acceptable(p: RawPathEntry) -> bool {
    &&& p.path is Some && p.path.unwrap() > 0
    &&& p.spindle_load_milli is Some && p.spindle_load_milli.unwrap() >= 0
    &&& p.spindle_override is Some && 0 <= p.spindle_override.unwrap() <= 999
    &&& p.spindle_speed_milli is Some && p.spindle_speed_milli.unwrap() >= 0
    &&& p.feed_override is Some && 0 <= p.feed_override.unwrap() <= 999
    &&& p.aux_codes is Some && aux_keys_unique(p.aux_codes.unwrap()@)
}

/// A payload meets the whole schema: every required field is present, every
/// field-level constraint and every cross-field constraint holds.
pub open spec fn record_acceptable(raw: RawRecord) -> bool {
    &&& raw.shop_id is Some && raw.shop_id.unwrap() >= 0
    &&& raw.nc_id is Some && raw.nc_id.unwrap()@.len() > 0
    &&& raw.timestamp is Some && raw.timestamp.unwrap() > 0
    &&& raw.part_count is Some && raw.part_count.unwrap() >= 0
    &&& raw.total_part_count is Some && raw.total_part_count.unwrap() >= 0
    &&& raw.total_part_count.unwrap() >= raw.part_count.unwrap()
    &&& raw.status is Some && status_token_ok(raw.status.unwrap()@)
    &&& raw.main_program_name is Some && raw.main_program_name.unwrap()@.len() > 0
    &&& raw.mode is Some && raw.mode.unwrap()@.len() > 0
    &&& raw.alarms is Some
    &&& forall|i: int|
        0 <= i < raw.alarms.unwrap()@.len() ==> alarm_acceptable(#[trigger] raw.alarms.unwrap()@[i])
    &&& raw.path_data is Some && raw.path_data.unwrap()@.len() > 0
    &&& forall|i: int|
        0 <= i < raw.path_data.unwrap()@.len() ==> path_acceptable(
            #[trigger] raw.path_data.unwrap()@[i],
        )
    &&& paths_unique(raw.path_data.unwrap()@)
}

proof fn lemma_alarms_missing_iff(s: Seq<RawAlarmEntry>, i: int)
    requires
        0 <= i <= s.len(),
    ensures
        alarms_missing_from(s, i) is None <==> (forall|j: int|
            i <= j < s.len() ==> alarm_missing(#[trigger] s[j]) is None),
    decreases s.len() - i,
{
    if i < s.len() {
        lemma_alarms_missing_iff(s, i + 1);
    }
}

proof fn lemma_paths_missing_iff(s: Seq<RawPathEntry>, i: int)
    requires
        0 <= i <= s.len(),
    ensures
        paths_missing_from(s, i) is None <==> (forall|j: int|
            i <= j < s.len() ==> path_missing(#[trigger] s[j]) is None),
    decreases s.len() - i,
{
    if i < s.len() {
        lemma_paths_missing_iff(s, i + 1);
    }
}

proof fn lemma_alarms_violation_iff(s: Seq<RawAlarmEntry>, i: int)
    requires
        0 <= i <= s.len(),
    ensures
        alarms_violation_from(s, i) is None <==> (forall|j: int|
            i <= j < s.len() ==> alarm_violation(#[trigger] s[j]) is None),
    decreases s.len() - i,
{
    if i < s.len() {
        lemma_alarms_violation_iff(s, i + 1);
    }
}

proof fn lemma_paths_violation_iff(s: Seq<RawPathEntry>, i: int)
    requires
        0 <= i <= s.len(),
    ensures
        paths_violation_from(s, i) is None <==> (forall|j: int|
            i <= j < s.len() ==> path_violation(#[trigger] s[j]) is None),
    decreases s.len() - i,
{
    if i < s.len() {
        lemma_paths_violation_iff(s, i + 1);
    }
}

/// Validation accepts a payload exactly when it meets the whole schema: for
/// every payload, `validate` succeeds if and only if every required field is
/// present and every field-level and cross-field constraint holds — and the
/// record it then returns carries the payload's fields unchanged, by
/// `validate`'s own contract.
pub proof fn lemma_acceptance_iff(raw: RawRecord)
    ensures
        first_error(raw) is None <==> record_acceptable(raw),
{
    if raw.alarms is Some {
        lemma_alarms_missing_iff(raw.alarms.unwrap()@, 0);
        lemma_alarms_violation_iff(raw.alarms.unwrap()@, 0);
    }
    if raw.path_data is Some {
        lemma_paths_missing_iff(raw.path_data.unwrap()@, 0);
        lemma_paths_violation_iff(raw.path_data.unwrap()@, 0);
    }
}

/// A payload missing a required field is rejected naming exactly that field:
/// the first absent field in check order is the one the error reports.
pub proof fn lemma_missing_field_named(raw: RawRecord)
    ensures
        raw.shop_id is None ==> first_error(raw) == Some(
            ValidationError { field: Field::ShopId, constraint: Constraint::Missing },
        ),
        raw.shop_id is Some && raw.nc_id is None ==> first_error(raw) == Some(
            ValidationError { field: Field::NcId, constraint: Constraint::Missing },
        ),
        raw.shop_id is Some && raw.nc_id is Some && raw.timestamp is None ==> first_error(raw)
            == Some(ValidationError { field: Field::Timestamp, constraint: Constraint::Missing }),
        raw.shop_id is Some && raw.nc_id is Some && raw.timestamp is Some && raw.part_count is None
            ==> first_error(raw) == Some(
            ValidationError { field: Field::PartCount, constraint: Constraint::Missing },
        ),
        raw.shop_id is Some && raw.nc_id is Some && raw.timestamp is Some && raw.part_count is Some
            && raw.total_part_count is None ==> first_error(raw) == Some(
            ValidationError { field: Field::TotalPartCount, constraint: Constraint::Missing },
        ),
        raw.shop_id is Some && raw.nc_id is Some && raw.timestamp is Some && raw.part_count is Some
            && raw.total_part_count is Some && raw.status is None ==> first_error(raw) == Some(
            ValidationError { field: Field::Status, constraint: Constraint::Missing },
        ),
        raw.shop_id is Some && raw.nc_id is Some && raw.timestamp is Some && raw.part_count is Some
            && raw.total_part_count is Some && raw.status is Some && raw.main_program_name is None
            ==> first_error(raw) == Some(
            ValidationError { field: Field::MainProgramName, constraint: Constraint::Missing },
        ),
        raw.shop_id is Some && raw.nc_id is Some && raw.timestamp is Some && raw.part_count is Some
            && raw.total_part_count is Some && raw.status is Some && raw.main_program_name is Some
            && raw.mode is None ==> first_error(raw) == Some(
            ValidationError { field: Field::Mode, constraint: Constraint::Missing },
        ),
        raw.shop_id is Some && raw.nc_id is Some && raw.timestamp is Some && raw.part_count is Some
            && raw.total_part_count is Some && raw.status is Some && raw.main_program_name is Some
            && raw.mode is Some && raw.alarms is None ==> first_error(raw) == Some(
            ValidationError { field: Field::Alarms, constraint: Constraint::Missing },
        ),
        raw.shop_id is Some && raw.nc_id is Some && raw.timestamp is Some && raw.part_count is Some
            && raw.total_part_count is Some && raw.status is Some && raw.main_program_name is Some
            && raw.mode is Some && raw.alarms is Some && raw.path_data is None ==> first_error(raw)
            == Some(ValidationError { field: Field::PathData, constraint: Constraint::Missing }),
        missing_field(raw) is Some && raw.alarms is Some && alarms_missing_from(
            raw.alarms.unwrap()@,
            0,
        ) == missing_field(raw) ==> first_error(raw) == Some(
            ValidationError { field: missing_field(raw).unwrap(), constraint: Constraint::Missing },
        ),
        missing_field(raw) is Some && raw.path_data is Some && paths_missing_from(
            raw.path_data.unwrap()@,
            0,
        ) == missing_field(raw) ==> first_error(raw) == Some(
            ValidationError { field: missing_field(raw).unwrap(), constraint: Constraint::Missing },
        ),
{
}

/// A structurally complete payload whose fields each pass their own checks
/// but whose total part count is below its part count is rejected with the
/// cross-field violation, named on the total part count.
pub proof fn lemma_cross_field_violation(raw: RawRecord)
    requires
        missing_field(raw) is None,
        field_violation(raw) is None,
        raw.total_part_count.unwrap() < raw.part_count.unwrap(),
    ensures
        first_error(raw) == Some(
            ValidationError { field: Field::TotalPartCount, constraint: Constraint::CrossField },
        ),
{
}

/// Validation is a pure function of the payload: any two results that
/// `validate` may return for the same payload agree — they succeed or fail
/// together, fail with the same error, and succeed with records that carry
/// the same values. Validating a payload twice therefore yields the same
/// result both times.
pub proof fn lemma_validation_deterministic(
    raw: RawRecord,
    r1: Result<MachineStatusRecord, ValidationError>,
    r2: Result<MachineStatusRecord, ValidationError>,
)
    requires
        validate_post(raw, r1),
        validate_post(raw, r2),
    ensures
        r1 is Ok <==> r2 is Ok,
        r1 is Err ==> r1 == r2,
        r1 is Ok ==> crate::record::records_agree(r1.unwrap(), r2.unwrap()),
{
    if r1 is Ok {
        let x = r1.unwrap();
        let y = r2.unwrap();
        assert forall|i: int| 0 <= i < x.alarms@.len() implies crate::record::alarms_agree(
            #[trigger] x.alarms@[i],
            y.alarms@[i],
        ) by {
            assert(alarm_decodes(raw.alarms.unwrap()@[i], x.alarms@[i]));
            assert(alarm_decodes(raw.alarms.unwrap()@[i], y.alarms@[i]));
        }
        assert forall|i: int| 0 <= i < x.path_data@.len() implies crate::record::paths_agree(
            #[trigger] x.path_data@[i],
            y.path_data@[i],
        ) by {
            assert(path_decodes(raw.path_data.unwrap()@[i], x.path_data@[i]));
            assert(path_decodes(raw.path_data.unwrap()@[i], y.path_data@[i]));
            let rx = x.path_data@[i];
            let ry = y.path_data@[i];
            let raw_aux = raw.path_data.unwrap()@[i].aux_codes.unwrap()@;
            assert forall|k: int| 0 <= k < rx.aux_codes@.len() implies #[trigger] rx.aux_codes@[
                k
            ].code@ == ry.aux_codes@[k].code@ && rx.aux_codes@[k].value@ == ry.aux_codes@[k].value@
            by {
                assert(rx.aux_codes@[k].code@ == raw_aux[k].code@);
                assert(ry.aux_codes@[k].code@ == raw_aux[k].code@);
            }
        }
    }
}

proof fn lemma_alarms_missing_from_none(s: Seq<RawAlarmEntry>, i: int)
    requires
        0 <= i <= s.len(),
        alarms_missing_from(s, i) is None,
    ensures
        forall|j: int| i <= j < s.len() ==> alarm_missing(#[trigger] s[j]) is None,
    decreases s.len() - i,
{
    if i < s.len() {
        lemma_alarms_missing_from_none(s, i + 1);
    }
}

proof fn lemma_paths_missing_from_none(s: Seq<RawPathEntry>, i: int)
    requires
        0 <= i <= s.len(),
        paths_missing_from(s, i) is None,
    ensures
        forall|j: int| i <= j < s.len() ==> path_missing(#[trigger] s[j]) is None,
    decreases s.len() - i,
{
    if i < s.len() {
        lemma_paths_missing_from_none(s, i + 1);
    }
}

fn check_alarm_missing(a: &RawAlarmEntry) -> (r: Option<Field>)
    ensures
        r == alarm_missing(*a),
{
    if a.alarm_type.is_none() {
        Some(Field::AlarmType)
    } else if a.alarm_code.is_none() {
        Some(Field::AlarmCode)
    } else if a.alarm_message.is_none() {
        Some(Field::AlarmMessage)
    } else {
        None
    }
}

fn check_path_missing(p: &RawPathEntry) -> (r: Option<Field>)
    ensures
        r == path_missing(*p),
{
    if p.path.is_none() {
        Some(Field::Path)
    } else if p.spindle_load_milli.is_none() {
        Some(Field::SpindleLoad)
    } else if p.spindle_override.is_none() {
        Some(Field::SpindleOverride)
    } else if p.spindle_speed_milli.is_none() {
        Some(Field::SpindleSpeed)
    } else if p.feed_override.is_none() {
        Some(Field::FeedOverride)
    } else if p.aux_codes.is_none() {
        Some(Field::AuxCodes)
    } else {
        None
    }
}

#[verifier::loop_isolation(false)]
fn check_missing(raw: &RawRecord) -> (r: Option<Field>)
    ensures
        r == missing_field(*raw),
{
    if raw.shop_id.is_none() {
        return Some(Field::ShopId);
    }
    if raw.nc_id.is_none() {
        return Some(Field::NcId);
    }
    if raw.timestamp.is_none() {
        return Some(Field::Timestamp);
    }
    if raw.part_count.is_none() {
        return Some(Field::PartCount);
    }
    if raw.total_part_count.is_none() {
        return Some(Field::TotalPartCount);
    }
    if raw.status.is_none() {
        return Some(Field::Status);
    }
    if raw.main_program_name.is_none() {
        return Some(Field::MainProgramName);
    }
    if raw.mode.is_none() {
        return Some(Field::Mode);
    }
    if raw.alarms.is_none() {
        return Some(Field::Alarms);
    }
    if raw.path_data.is_none() {
        return Some(Field::PathData);
    }
    let alarms = raw.alarms.as_ref().unwrap();
    let mut i: usize = 0;
    while i < alarms.len()
        invariant
            0 <= i <= alarms@.len(),
            alarms@ == raw.alarms.unwrap()@,
            alarms_missing_from(alarms@, 0) == alarms_missing_from(alarms@, i as int),
        decreases alarms@.len() - i,
    {
        match check_alarm_missing(&alarms[i]) {
            Some(f) => {
                return Some(f);
            },
            None => {
                i += 1;
            },
        }
    }
    let paths = raw.path_data.as_ref().unwrap();
    let mut i: usize = 0;
    while i < paths.len()
        invariant
            0 <= i <= paths@.len(),
            paths@ == raw.path_data.unwrap()@,
            alarms_missing_from(raw.alarms.unwrap()@, 0) is None,
            paths_missing_from(paths@, 0) == paths_missing_from(paths@, i as int),
        decreases paths@.len() - i,
    {
        match check_path_missing(&paths[i]) {
            Some(f) => {
                return Some(f);
            },
            None => {
                i += 1;
            },
        }
    }
    None
}

fn status_ok(s: &String) -> (r: bool)
    ensures
        r == status_token_ok(s@),
{
    let start = String::from_str("START");
    let stop = String::from_str("STOP");
    let alarm = String::from_str("ALARM");
    *s == start || *s == stop || *s == alarm
}

fn check_alarm_violation(a: &RawAlarmEntry) -> (r: Option<ValidationError>)
    requires
        alarm_missing(*a) is None,
    ensures
        r == alarm_violation(*a),
{
    if a.alarm_type.as_ref().unwrap().as_str().is_empty() {
        Some(ValidationError { field: Field::AlarmType, constraint: Constraint::Empty })
    } else if a.alarm_code.as_ref().unwrap().as_str().is_empty() {
        Some(ValidationError { field: Field::AlarmCode, constraint: Constraint::Empty })
    } else if a.alarm_message.as_ref().unwrap().as_str().is_empty() {
        Some(ValidationError { field: Field::AlarmMessage, constraint: Constraint::Empty })
    } else {
        None
    }
}

#[verifier::loop_isolation(false)]
fn check_aux_unique(s: &Vec<AuxCode>) -> (r: bool)
    ensures
        r == aux_keys_unique(s@),
{
    let n = s.len();
    let mut i: usize = 0;
    while i < n
        invariant
            0 <= i <= n == s@.len(),
            forall|a: int, b: int|
                #![trigger s@[a].code, s@[b].code]
                0 <= a < b < s@.len() && a < i ==> s@[a].code@ != s@[b].code@,
        decreases n - i,
    {
        let mut j: usize = i + 1;
        while j < n
            invariant
                0 <= i < j <= n == s@.len(),
                forall|b: int| i < b < j ==> s@[i as int].code@ != #[trigger] s@[b].code@,
            decreases n - j,
        {
            if s[i].code == s[j].code {
                return false;
            }
            j += 1;
        }
        i += 1;
    }
    true
}

fn check_path_violation(p: &RawPathEntry) -> (r: Option<ValidationError>)
    requires
        path_missing(*p) is None,
    ensures
        r == path_violation(*p),
{
    let path = p.path.unwrap();
    let load = p.spindle_load_milli.unwrap();
    let s_ovr = p.spindle_override.unwrap();
    let speed = p.spindle_speed_milli.unwrap();
    let f_ovr = p.feed_override.unwrap();
    if path <= 0 {
        Some(ValidationError { field: Field::Path, constraint: Constraint::OutOfRange })
    } else if load < 0 {
        Some(ValidationError { field: Field::SpindleLoad, constraint: Constraint::OutOfRange })
    } else if !(0 <= s_ovr && s_ovr <= 999) {
        Some(ValidationError { field: Field::SpindleOverride, constraint: Constraint::OutOfRange })
    } else if speed < 0 {
        Some(ValidationError { field: Field::SpindleSpeed, constraint: Constraint::OutOfRange })
    } else if !(0 <= f_ovr && f_ovr <= 999) {
        Some(ValidationError { field: Field::FeedOverride, constraint: Constraint::OutOfRange })
    } else if !check_aux_unique(p.aux_codes.as_ref().unwrap()) {
        Some(ValidationError { field: Field::AuxCodes, constraint: Constraint::NotUnique })
    } else {
        None
    }
}

#[verifier::loop_isolation(false)]
fn check_field_violations(raw: &RawRecord) -> (r: Option<ValidationError>)
    requires
        missing_field(*raw) is None,
    ensures
        r == field_violation(*raw),
{
    if raw.shop_id.unwrap() < 0 {
        return Some(ValidationError { field: Field::ShopId, constraint: Constraint::OutOfRange });
    }
    if raw.nc_id.as_ref().unwrap().as_str().is_empty() {
        return Some(ValidationError { field: Field::NcId, constraint: Constraint::Empty });
    }
    if raw.timestamp.unwrap() <= 0 {
        return Some(ValidationError { field: Field::Timestamp, constraint: Constraint::OutOfRange });
    }
    if raw.part_count.unwrap() < 0 {
        return Some(ValidationError { field: Field::PartCount, constraint: Constraint::OutOfRange });
    }
    if raw.total_part_count.unwrap() < 0 {
        return Some(
            ValidationError { field: Field::TotalPartCount, constraint: Constraint::OutOfRange },
        );
    }
    if !status_ok(raw.status.as_ref().unwrap()) {
        return Some(ValidationError { field: Field::Status, constraint: Constraint::UnknownToken });
    }
    if raw.main_program_name.as_ref().unwrap().as_str().is_empty() {
        return Some(ValidationError { field: Field::MainProgramName, constraint: Constraint::Empty });
    }
    if raw.mode.as_ref().unwrap().as_str().is_empty() {
        return Some(ValidationError { field: Field::Mode, constraint: Constraint::Empty });
    }
    let alarms = raw.alarms.as_ref().unwrap();
    proof {
        lemma_alarms_missing_from_none(alarms@, 0);
    }
    let mut i: usize = 0;
    while i < alarms.len()
        invariant
            0 <= i <= alarms@.len(),
            alarms@ == raw.alarms.unwrap()@,
            forall|j: int| 0 <= j < alarms@.len() ==> alarm_missing(#[trigger] alarms@[j]) is None,
            alarms_violation_from(alarms@, 0) == alarms_violation_from(alarms@, i as int),
        decreases alarms@.len() - i,
    {
        match check_alarm_violation(&alarms[i]) {
            Some(e) => {
                return Some(e);
            },
            None => {
                i += 1;
            },
        }
    }
    let paths = raw.path_data.as_ref().unwrap();
    proof {
        lemma_paths_missing_from_none(paths@, 0);
    }
    let mut i: usize = 0;
    while i < paths.len()
        invariant
            0 <= i <= paths@.len(),
            paths@ == raw.path_data.unwrap()@,
            alarms_violation_from(raw.alarms.unwrap()@, 0) is None,
            forall|j: int| 0 <= j < paths@.len() ==> path_missing(#[trigger] paths@[j]) is None,
            paths_violation_from(paths@, 0) == paths_violation_from(paths@, i as int),
        decreases paths@.len() - i,
    {
        match check_path_violation(&paths[i]) {
            Some(e) => {
                return Some(e);
            },
            None => {
                i += 1;
            },
        }
    }
    None
}

#[verifier::loop_isolation(false)]
fn check_cross(raw: &RawRecord) -> (r: Option<ValidationError>)
    requires
        missing_field(*raw) is None,
    ensures
        r == cross_violation(*raw),
{
    if raw.total_part_count.unwrap() < raw.part_count.unwrap() {
        return Some(
            ValidationError { field: Field::TotalPartCount, constraint: Constraint::CrossField },
        );
    }
    let paths = raw.path_data.as_ref().unwrap();
    proof {
        lemma_paths_missing_from_none(paths@, 0);
    }
    let n = paths.len();
    let mut i: usize = 0;
    while i < n
        invariant
            0 <= i <= n == paths@.len(),
            paths@ == raw.path_data.unwrap()@,
            forall|j: int| 0 <= j < paths@.len() ==> path_missing(#[trigger] paths@[j]) is None,
            forall|a: int, b: int|
                #![trigger paths@[a].path, paths@[b].path]
                0 <= a < b < paths@.len() && a < i ==> paths@[a].path.unwrap() != paths@[
                    b
                ].path.unwrap(),
        decreases n - i,
    {
        let mut j: usize = i + 1;
        while j < n
            invariant
                0 <= i < j <= n == paths@.len(),
                paths@ == raw.path_data.unwrap()@,
                forall|k: int| 0 <= k < paths@.len() ==> path_missing(#[trigger] paths@[k]) is None,
                forall|b: int|
                    i < b < j ==> paths@[i as int].path.unwrap() != #[trigger] paths@[
                        b
                    ].path.unwrap(),
            decreases n - j,
        {
            if paths[i].path.unwrap() == paths[j].path.unwrap() {
                return Some(
                    ValidationError { field: Field::Path, constraint: Constraint::NotUnique },
                );
            }
            j += 1;
        }
        i += 1;
    }
    if paths.len() == 0 {
        return Some(ValidationError { field: Field::PathData, constraint: Constraint::Empty });
    }
    None
}

#[verifier::loop_isolation(false)]
fn clone_aux_codes(s: &Vec<AuxCode>) -> (r: Vec<AuxCode>)
    ensures
        aux_codes_match(r@, s@),
{
    let mut out: Vec<AuxCode> = Vec::new();
    let mut i: usize = 0;
    while i < s.len()
        invariant
            0 <= i <= s@.len(),
            out@.len() == i,
            forall|k: int|
                0 <= k < i ==> #[trigger] out@[k].code@ == s@[k].code@ && out@[k].value@ == s@[
                    k
                ].value@,
        decreases s@.len() - i,
    {
        out.push(AuxCode { code: s[i].code.clone(), value: s[i].value.clone() });
        i += 1;
    }
    out
}

#[verifier::loop_isolation(false)]
fn build_record(raw: &RawRecord) -> (rec: MachineStatusRecord)
    requires
        missing_field(*raw) is None,
    ensures
        record_decodes(*raw, rec),
{
    let raw_alarms = raw.alarms.as_ref().unwrap();
    proof {
        lemma_alarms_missing_from_none(raw_alarms@, 0);
    }
    let mut alarms: Vec<AlarmEntry> = Vec::new();
    let mut i: usize = 0;
    while i < raw_alarms.len()
        invariant
            0 <= i <= raw_alarms@.len(),
            raw_alarms@ == raw.alarms.unwrap()@,
            forall|j: int|
                0 <= j < raw_alarms@.len() ==> alarm_missing(#[trigger] raw_alarms@[j]) is None,
            alarms@.len() == i,
            forall|k: int| 0 <= k < i ==> alarm_decodes(raw_alarms@[k], #[trigger] alarms@[k]),
        decreases raw_alarms@.len() - i,
    {
        let a = &raw_alarms[i];
        alarms.push(
            AlarmEntry {
                alarm_type: a.alarm_type.as_ref().unwrap().clone(),
                alarm_code: a.alarm_code.as_ref().unwrap().clone(),
                alarm_message: a.alarm_message.as_ref().unwrap().clone(),
            },
        );
        i += 1;
    }
    let raw_paths = raw.path_data.as_ref().unwrap();
    proof {
        lemma_paths_missing_from_none(raw_paths@, 0);
    }
    let mut path_data: Vec<PathEntry> = Vec::new();
    let mut i: usize = 0;
    while i < raw_paths.len()
        invariant
            0 <= i <= raw_paths@.len(),
            raw_paths@ == raw.path_data.unwrap()@,
            forall|j: int|
                0 <= j < raw_paths@.len() ==> path_missing(#[trigger] raw_paths@[j]) is None,
            path_data@.len() == i,
            forall|k: int| 0 <= k < i ==> path_decodes(raw_paths@[k], #[trigger] path_data@[k]),
        decreases raw_paths@.len() - i,
    {
        let p = &raw_paths[i];
        path_data.push(
            PathEntry {
                path: p.path.unwrap(),
                spindle_load_milli: p.spindle_load_milli.unwrap(),
                spindle_override: p.spindle_override.unwrap(),
                spindle_speed_milli: p.spindle_speed_milli.unwrap(),
                feed_override: p.feed_override.unwrap(),
                aux_codes: clone_aux_codes(p.aux_codes.as_ref().unwrap()),
            },
        );
        i += 1;
    }
    MachineStatusRecord {
        shop_id: raw.shop_id.unwrap(),
        nc_id: raw.nc_id.as_ref().unwrap().clone(),
        timestamp: raw.timestamp.unwrap(),
        part_count: raw.part_count.unwrap(),
        total_part_count: raw.total_part_count.unwrap(),
        status: raw.status.as_ref().unwrap().clone(),
        main_program_name: raw.main_program_name.as_ref().unwrap().clone(),
        mode: raw.mode.as_ref().unwrap().clone(),
        alarms,
        path_data,
    }
}

/// Validate a decoded payload. Succeeds exactly when the payload is
/// structurally complete and meets every field-level and cross-field
/// constraint; the returned record then carries the payload's fields
/// unchanged. Fails on the first violation, in check order, naming the
/// offending field and the violated constraint.
pub fn validate(raw: &RawRecord) -> (r: Result<MachineStatusRecord, ValidationError>)
    ensures
        validate_post(*raw, r),
{
    match check_missing(raw) {
        Some(f) => {
            return Err(ValidationError { field: f, constraint: Constraint::Missing });
        },
        None => {},
    }
    match check_field_violations(raw) {
        Some(e) => {
            return Err(e);
        },
        None => {},
    }
    match check_cross(raw) {
        Some(e) => {
            return Err(e);
        },
        None => {},
    }
    Ok(build_record(raw))
}

} // verus!
