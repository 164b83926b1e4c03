//! The decisions of a lookup around the cache: a source's answer is taken
//! from the cache when it is there, asked for otherwise, and cached only when
//! the source answered.
use vstd::prelude::*;

use crate::cache::REPORT_TTL_SECS;
use crate::error::SourceError;
use crate::models::{SourceData, Timestamp, VehicleReport};
use crate::report::SourceOutcome;

verus! {

/// A source as a lookup sees it: who it is and how long its answers are cached.
#[derive(Debug, Clone, PartialEq, Eq)]
pub struct SourceInfo {
    pub id: String,
    pub country: String,
    pub name: String,
    pub ttl_secs: u64,
}

/// What follows reading a source's cache entry.
#[derive(Debug, PartialEq, Eq)]
pub enum CacheStep {
    /// The cached answer is the outcome; the source is not asked.
    Done(SourceOutcome),
    /// Nothing usable was cached: the source is to be asked.
    Fetch(SourceInfo),
}

/// What follows reading the whole-report cache entry of a VIN.
#[derive(Debug, PartialEq, Eq)]
pub enum ReportStep {
    /// The cached report is the answer: no source is asked and nothing is written.
    Cached(VehicleReport),
    /// No usable report was cached: the sources are asked, their outcomes are
    /// assembled onto `start`, and the assembled report is cached for `ttl_secs`.
    Assemble { start: VehicleReport, ttl_secs: u64 },
}

/// `r` is a report for `vin` that nothing has contributed to yet.
pub open spec fn starts_empty(r: VehicleReport, vin: Seq<char>) -> bool {
    &&& r.vin@ == vin
    &&& r.decode is None
    &&& r.registrations@.len() == 0
    &&& r.inspections@.len() == 0
    &&& r.recalls@.len() == 0
    &&& r.encumbrances@.len() == 0
    &&& r.sources@.len() == 0
}

/// After reading the whole-report cache for `vin`: a cached report (`hit`, when
/// one was there and could be read) is returned as it is; otherwise the lookup
/// goes on to the sources from an empty report, to be cached for an hour.
pub fn after_report_read(vin: &str, hit: Option<VehicleReport>) -> (r: ReportStep)
    ensures
        match hit {
            Some(c) => r == ReportStep::Cached(c),
            None => r matches ReportStep::Assemble { start, ttl_secs } && starts_empty(start, vin@)
                && ttl_secs == REPORT_TTL_SECS,
        },
{
    match hit {
        Some(c) => ReportStep::Cached(c),
        None => ReportStep::Assemble { start: VehicleReport::new(vin), ttl_secs: REPORT_TTL_SECS },
    }
}

/// `o` names source `info`, was asked at `at` and came from the cache or not as `cached` says.
pub open spec fn outcome_of(o: SourceOutcome, info: SourceInfo, at: Timestamp, cached: bool) -> bool {
    &&& o.id == info.id
    &&& o.country == info.country
    &&& o.name == info.name
    &&& o.queried_at == at
    &&& o.cached == cached
}

/// After reading the cache for a source at `queried_at`: a cached answer
/// (`hit`, when one was there and could be read) is the outcome; otherwise the
/// source is to be asked.
pub fn after_cache_read(info: SourceInfo, queried_at: Timestamp, hit: Option<SourceData>) -> (r:
    CacheStep)
    ensures
        match hit {
            Some(d) => r matches CacheStep::Done(o) && outcome_of(o, info, queried_at, true)
                && o.result == Ok::<SourceData, SourceError>(d),
            None => r == CacheStep::Fetch(info),
        },
{
    match hit {
        Some(data) => CacheStep::Done(
            SourceOutcome {
                id: info.id,
                country: info.country,
                name: info.name,
                result: Ok(data),
                queried_at,
                cached: true,
            },
        ),
        None => CacheStep::Fetch(info),
    }
}

/// After asking a source: the outcome, and, when the source answered, how many
/// seconds to cache the answer for (nothing is cached for an error).
pub fn after_fetch(
    info: SourceInfo,
    queried_at: Timestamp,
    result: Result<SourceData, SourceError>,
) -> (r: (SourceOutcome, Option<u64>))
    ensures
        outcome_of(r.0, info, queried_at, false),
        r.0.result == result,
        r.1 == (if result is Ok {
            Some(info.ttl_secs)
        } else {
            None::<u64>
        }),
{
    let store = match &result {
        Ok(_) => Some(info.ttl_secs),
        Err(_) => None,
    };
    (
        SourceOutcome {
            id: info.id,
            country: info.country,
            name: info.name,
            result,
            queried_at,
            cached: false,
        },
        store,
    )
}

} // verus!
