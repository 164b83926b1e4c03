//! The data model of a vehicle report and of what each source contributes to it.
use vstd::prelude::*;

verus! {

/// A calendar date (proleptic Gregorian), as read from a source.
#[derive(Clone, Copy, Debug, PartialEq, Eq, Structural)]
pub struct CalendarDate {
    pub year: i32,
    pub month: u32,
    pub day: u32,
}

/// An instant in UTC: whole seconds since the Unix epoch and the nanoseconds
/// past that second.
#[derive(Clone, Copy, Debug, PartialEq, Eq, Structural)]
pub struct Timestamp {
    pub secs: i64,
    pub nanos: u32,
}

/// `a` is an earlier day than `b`.
pub open spec fn date_before(a: CalendarDate, b: CalendarDate) -> bool {
    ||| a.year < b.year
    ||| (a.year == b.year && a.month < b.month)
    ||| (a.year == b.year && a.month == b.month && a.day < b.day)
}

/// Whether `a` is an earlier day than `b`.
pub fn is_before(a: CalendarDate, b: CalendarDate) -> (r: bool)
    ensures
        r == date_before(a, b),
{
    a.year < b.year || (a.year == b.year && a.month < b.month) || (a.year == b.year && a.month
        == b.month && a.day < b.day)
}

/// The position of a day on a calendar in which every month has 31 days: it
/// grows with the year first, then the month, then the day of the month.
pub open spec fn day_number(d: CalendarDate) -> int {
    d.year * 372 + d.month * 31 + d.day
}

/// A date whose month is 1 to 12 and whose day is 1 to 31.
pub open spec fn in_calendar(d: CalendarDate) -> bool {
    1 <= d.month <= 12 && 1 <= d.day <= 31
}

/// Days are ordered chronologically: an earlier year comes first whatever the
/// month and day, and within a year an earlier month comes first whatever the
/// day.  For dates on the calendar this is the order of their day numbers, and
/// it is a strict order (never both ways, and one way for any two different
/// dates).
pub proof fn lemma_date_before_is_chronological(a: CalendarDate, b: CalendarDate)
    ensures
        a.year < b.year ==> date_before(a, b),
        a.year == b.year && a.month < b.month ==> date_before(a, b),
        a.year == b.year && a.month == b.month ==> (date_before(a, b) <==> a.day < b.day),
        a.year > b.year ==> !date_before(a, b),
        a.year == b.year && a.month > b.month ==> !date_before(a, b),
        in_calendar(a) && in_calendar(b) ==> (date_before(a, b) <==> day_number(a) < day_number(b)),
        !(date_before(a, b) && date_before(b, a)),
        a != b ==> date_before(a, b) || date_before(b, a),
{
}

/// Reads the current time with chrono's `Utc::now`, split into
/// `DateTime::timestamp` and `DateTime::timestamp_subsec_nanos`.  The time read
/// is not stated; the one fact claimed is chrono's bound on the nanoseconds
/// (below two billion, the upper half being leap seconds).
#[verifier::external_body]
fn now_utc() -> (t: Timestamp)
    ensures
        t.nanos < 2_000_000_000,
{
    let now = chrono::Utc::now();
    Timestamp { secs: now.timestamp(), nanos: now.timestamp_subsec_nanos() }
}

/// Top-level response for a VIN lookup.
#[derive(Debug, Clone, PartialEq, Eq)]
pub struct VehicleReport {
    pub vin: String,
    pub generated_at: Timestamp,
    pub decode: Option<VinDecode>,
    pub registrations: Vec<Registration>,
    pub inspections: Vec<Inspection>,
    pub recalls: Vec<Recall>,
    pub encumbrances: Vec<Encumbrance>,
    pub sources: Vec<SourceResult>,
}

impl VehicleReport {
    /// An empty report for `vin`, stamped with the current time.
    pub fn new(vin: &str) -> (r: VehicleReport)
        ensures
            r.vin@ == vin@,
            r.decode is None,
            r.registrations@.len() == 0,
            r.inspections@.len() == 0,
            r.recalls@.len() == 0,
            r.encumbrances@.len() == 0,
            r.sources@.len() == 0,
            r.generated_at.nanos < 2_000_000_000,
    {
        VehicleReport {
            vin: vin.to_owned(),
            generated_at: now_utc(),
            decode: None,
            registrations: Vec::new(),
            inspections: Vec::new(),
            recalls: Vec::new(),
            encumbrances: Vec::new(),
            sources: Vec::new(),
        }
    }
}

/// Structural VIN decode (NHTSA vPIC + WMI fallback).
#[derive(Debug, Clone, PartialEq, Eq)]
pub struct VinDecode {
    pub make: Option<String>,
    pub model: Option<String>,
    pub year: Option<u16>,
    pub body_style: Option<String>,
    pub engine: Option<String>,
    pub fuel_type: Option<String>,
    pub transmission: Option<String>,
    pub drive_type: Option<String>,
    pub plant_country: Option<String>,
    pub plant_city: Option<String>,
    pub manufacturer: Option<String>,
    pub wmi: String,
    pub series: Option<String>,
    pub trim: Option<String>,
}

/// A registration record from a national authority.
#[derive(Debug, Clone, PartialEq, Eq)]
pub struct Registration {
    pub country: String,
    pub plate: Option<String>,
    pub first_registered: Option<CalendarDate>,
    pub deregistered: Option<CalendarDate>,
    pub status: RegistrationStatus,
    pub color: Option<String>,
    pub fuel: Option<String>,
    pub body: Option<String>,
    pub engine_cc: Option<u32>,
    pub power_kw: Option<u32>,
    pub seats: Option<u8>,
    pub weight_kg: Option<u32>,
    pub source: String,
}

#[derive(Debug, Clone, Copy, PartialEq, Eq, Structural)]
pub enum RegistrationStatus {
    Active,
    Deregistered,
    Exported,
    Stolen,
    Unknown,
}

/// A periodic-inspection event (MOT / APK / STK / CT / ITV etc.).
#[derive(Debug, Clone, PartialEq, Eq)]
pub struct Inspection {
    pub country: String,
    pub date: CalendarDate,
    pub result: InspectionResult,
    pub mileage_km: Option<u64>,
    pub defects: Vec<String>,
    pub advisories: Vec<String>,
    pub expiry: Option<CalendarDate>,
    pub test_number: Option<String>,
    pub source: String,
}

#[derive(Debug, Clone, Copy, PartialEq, Eq, Structural)]
pub enum InspectionResult {
    Pass,
    Fail,
    Advisory,
    Unknown,
}

/// A safety recall campaign.
#[derive(Debug, Clone, PartialEq, Eq)]
pub struct Recall {
    pub id: String,
    pub campaign_number: Option<String>,
    pub date: Option<CalendarDate>,
    pub description: String,
    pub component: Option<String>,
    pub remedy: Option<String>,
    pub status: RecallStatus,
    pub source: String,
    pub url: Option<String>,
}

#[derive(Debug, Clone, Copy, PartialEq, Eq, Structural)]
pub enum RecallStatus {
    Open,
    Remedied,
    Unknown,
}

/// A financial or administrative encumbrance.
#[derive(Debug, Clone, PartialEq, Eq)]
pub struct Encumbrance {
    pub kind: EncumbranceKind,
    pub description: Option<String>,
    pub country: String,
    pub source: String,
}

#[derive(Debug, Clone, Copy, PartialEq, Eq, Structural)]
pub enum EncumbranceKind {
    Lien,
    Seizure,
    Stolen,
    TaxUnpaid,
    ExportRestriction,
    InsuranceFlag,
    Other,
}

/// Metadata about a source query.
#[derive(Debug, Clone, PartialEq, Eq)]
pub struct SourceResult {
    pub id: String,
    pub country: String,
    pub name: String,
    pub status: SourceStatus,
    pub queried_at: Timestamp,
    pub cached: bool,
    pub error: Option<String>,
}

#[derive(Debug, Clone, Copy, PartialEq, Eq, Structural)]
pub enum SourceStatus {
    /// The source answered (reported as `ok`).
    Success,
    NotFound,
    Error,
    RateLimited,
    Skipped,
}

/// Data returned by a single source adapter — merged into VehicleReport.
#[derive(Debug, Clone, PartialEq, Eq)]
pub struct SourceData {
    pub registrations: Vec<Registration>,
    pub inspections: Vec<Inspection>,
    pub recalls: Vec<Recall>,
    pub encumbrances: Vec<Encumbrance>,
    pub decode: Option<VinDecode>,
}

impl SourceData {
    /// Contributes nothing.
    pub open spec fn is_empty(&self) -> bool {
        &&& self.registrations@.len() == 0
        &&& self.inspections@.len() == 0
        &&& self.recalls@.len() == 0
        &&& self.encumbrances@.len() == 0
        &&& self.decode is None
    }
}

impl Default for SourceData {
    fn default() -> (r: SourceData)
        ensures
            r.is_empty(),
    {
        SourceData {
            registrations: Vec::new(),
            inspections: Vec::new(),
            recalls: Vec::new(),
            encumbrances: Vec::new(),
            decode: None,
        }
    }
}

} // verus!
