use vstd::prelude::*;

use crate::checks::{
    count_where, first_error, first_error_from, lemma_count_bound, lemma_prefix_step,
    lemma_take_all,
};
use crate::errors::{validate_non_empty_plan, ZonePlanError};
use crate::temporal::MAX_UTC_OFFSET_MINUTES;

verus! {

/// A zone: an id and a UTC offset in minutes.
#[derive(Debug, Clone, PartialEq, Eq)]
pub struct ZoneSpec {
    pub id: String,
    pub utc_offset_minutes: i32,
}

/// A plan: zones, and one zone index per unit.
#[derive(Debug, Clone, PartialEq, Eq)]
pub struct ZonePlan {
    pub name: String,
    pub zones: Vec<ZoneSpec>,
    pub assignment: Vec<usize>,
}

/// The legal standing of a plan.
#[derive(Debug, Clone, Copy, PartialEq, Eq)]
pub enum ZoneScenarioKind {
    CurrentLaw,
    HistoricalLaw,
    ProposedScenario,
    AnalyticCounterfactual,
}

/// The scenario a plan describes.
#[derive(Debug, Clone, PartialEq, Eq)]
pub struct ZoneScenario {
    pub scenario_id: String,
    pub kind: ZoneScenarioKind,
    pub label: String,
    pub authority_source_id: Option<String>,
}

/// A catalog of zones that plans may draw from.
#[derive(Debug, Clone, PartialEq, Eq)]
pub struct ZoneCatalog {
    pub catalog_id: String,
    pub source_manifest_id: String,
    pub generated_on: String,
    pub zones: Vec<ZoneSpec>,
    pub caveats: Vec<String>,
}

/// Offset counts over a zone catalog.
#[derive(Debug, Clone, PartialEq, Eq)]
pub struct ZoneCatalogReport {
    pub catalog_id: String,
    pub zone_count: usize,
    pub whole_hour_offset_count: usize,
    pub non_whole_hour_offset_count: usize,
    pub half_hour_offset_count: usize,
    pub quarter_hour_offset_count: usize,
    pub min_utc_offset_minutes: i32,
    pub max_utc_offset_minutes: i32,
}

/// The sources behind one plan unit's fields.
#[derive(Debug, Clone, PartialEq, Eq)]
pub struct BoundaryUnitSourceRefs {
    pub boundary_source_id: Option<String>,
    pub representative_point_source_id: Option<String>,
    pub population_source_id: Option<String>,
    pub time_zone_assignment_source_id: Option<String>,
    pub time_zone_geometry_source_id: Option<String>,
    pub caveats: Vec<String>,
}

/// How boundary features are joined to plan units.
#[derive(Debug, Clone, PartialEq, Eq)]
pub struct GeometryJoinOptions {
    pub unit_id_property: String,
    pub require_all_units: bool,
}

/// Whether a plan unit received a geometry in a join.
#[derive(Debug, Clone, PartialEq, Eq)]
pub struct GeometryJoinUnitStatus {
    pub unit_id: String,
    pub matched: bool,
    pub geometry_type: Option<String>,
}

/// A grid of candidate UTC offsets.
#[derive(Debug, Clone, Copy, PartialEq, Eq)]
pub enum OffsetCandidateGrid {
    WholeHour,
    HalfHour,
    QuarterHour,
}

/// Which offset an offset map shows.
#[derive(Debug, Clone, Copy, PartialEq, Eq)]
pub enum OffsetMapView {
    CurrentStandard,
    CurrentDst,
    BestWholeHour,
    BestHalfHour,
    BestQuarterHour,
}

/// The size of a rendered offset map.
#[derive(Debug, Clone, PartialEq, Eq)]
pub struct OffsetMapRenderOptions {
    pub width: u32,
    pub height: u32,
}

/// How completely a plan's units cite their sources.
#[derive(Debug, Clone, PartialEq, Eq)]
pub struct ZonePlanSourceRefReport {
    pub input_id: String,
    pub source_manifest_id: String,
    pub unit_count: usize,
    pub units_with_source_refs: usize,
    pub units_with_complete_source_refs: usize,
    pub units_missing_source_refs: usize,
    pub boundary_source_ref_count: usize,
    pub missing_boundary_source_ref_count: usize,
    pub representative_point_source_ref_count: usize,
    pub missing_representative_point_source_ref_count: usize,
    pub population_source_ref_count: usize,
    pub missing_population_source_ref_count: usize,
    pub time_zone_assignment_source_ref_count: usize,
    pub missing_time_zone_assignment_source_ref_count: usize,
    pub time_zone_geometry_source_ref_count: usize,
    pub missing_time_zone_geometry_source_ref_count: usize,
    pub units_with_source_caveats: usize,
    pub units_missing_source_caveats: usize,
    pub unit_source_caveat_count: usize,
    pub publishable_source_ref_coverage: bool,
}

impl Default for GeometryJoinOptions {
    /// Joins on the `unit_id` property and does not require every unit to match.
    fn default() -> (r: Self)
        ensures
            r.unit_id_property@ == "unit_id"@,
            !r.require_all_units,
    {
        GeometryJoinOptions { unit_id_property: String::from_str("unit_id"), require_all_units: false }
    }
}

impl Default for OffsetMapRenderOptions {
    /// A 960 by 560 map.
    fn default() -> (r: Self)
        ensures
            r.width == 960,
            r.height == 560,
    {
        OffsetMapRenderOptions { width: 960, height: 560 }
    }
}

impl OffsetCandidateGrid {
    /// The spacing of the grid, in minutes.
    pub open spec fn step(self) -> int {
        match self {
            OffsetCandidateGrid::WholeHour => 60,
            OffsetCandidateGrid::HalfHour => 30,
            OffsetCandidateGrid::QuarterHour => 15,
        }
    }

    /// The name of the grid.
    pub open spec fn name(self) -> Seq<char> {
        match self {
            OffsetCandidateGrid::WholeHour => "whole-hour"@,
            OffsetCandidateGrid::HalfHour => "half-hour"@,
            OffsetCandidateGrid::QuarterHour => "quarter-hour"@,
        }
    }

    /// The spacing of the grid, in minutes.
    pub fn step_minutes(self) -> (r: i32)
        ensures
            r == self.step(),
    {
        match self {
            OffsetCandidateGrid::WholeHour => 60,
            OffsetCandidateGrid::HalfHour => 30,
            OffsetCandidateGrid::QuarterHour => 15,
        }
    }

    /// The name of the grid, as used in generated ids.
    pub fn slug(self) -> (r: &'static str)
        ensures
            r@ == self.name(),
    {
        match self {
            OffsetCandidateGrid::WholeHour => "whole-hour",
            OffsetCandidateGrid::HalfHour => "half-hour",
            OffsetCandidateGrid::QuarterHour => "quarter-hour",
        }
    }

    /// The name of the grid, as used in labels.
    pub fn label(self) -> (r: &'static str)
        ensures
            r@ == self.name(),
    {
        match self {
            OffsetCandidateGrid::WholeHour => "whole-hour",
            OffsetCandidateGrid::HalfHour => "half-hour",
            OffsetCandidateGrid::QuarterHour => "quarter-hour",
        }
    }
}

impl OffsetMapView {
    /// The file-name stem of the view.
    pub open spec fn slug_text(self) -> Seq<char> {
        match self {
            OffsetMapView::CurrentStandard => "current-standard"@,
            OffsetMapView::CurrentDst => "current-dst"@,
            OffsetMapView::BestWholeHour => "best-whole-hour"@,
            OffsetMapView::BestHalfHour => "best-half-hour"@,
            OffsetMapView::BestQuarterHour => "best-quarter-hour"@,
        }
    }

    /// The title of the view.
    pub open spec fn title_text(self) -> Seq<char> {
        match self {
            OffsetMapView::CurrentStandard => "Current standard-time offset error"@,
            OffsetMapView::CurrentDst => "Current DST-period clock error"@,
            OffsetMapView::BestWholeHour => "Best whole-hour offset error"@,
            OffsetMapView::BestHalfHour => "Best half-hour offset error"@,
            OffsetMapView::BestQuarterHour => "Best quarter-hour offset error"@,
        }
    }

    /// The file-name stem of the view.
    pub fn slug(self) -> (r: &'static str)
        ensures
            r@ == self.slug_text(),
    {
        match self {
            OffsetMapView::CurrentStandard => "current-standard",
            OffsetMapView::CurrentDst => "current-dst",
            OffsetMapView::BestWholeHour => "best-whole-hour",
            OffsetMapView::BestHalfHour => "best-half-hour",
            OffsetMapView::BestQuarterHour => "best-quarter-hour",
        }
    }

    /// The title of the view.
    pub fn title(self) -> (r: &'static str)
        ensures
            r@ == self.title_text(),
    {
        match self {
            OffsetMapView::CurrentStandard => "Current standard-time offset error",
            OffsetMapView::CurrentDst => "Current DST-period clock error",
            OffsetMapView::BestWholeHour => "Best whole-hour offset error",
            OffsetMapView::BestHalfHour => "Best half-hour offset error",
            OffsetMapView::BestQuarterHour => "Best quarter-hour offset error",
        }
    }
}

/// Whether an offset lies within fourteen hours of UTC.
pub open spec fn offset_in_range(offset: i32) -> bool {
    -MAX_UTC_OFFSET_MINUTES <= offset <= MAX_UTC_OFFSET_MINUTES
}

/// What checking one zone reports, if anything.
pub open spec fn zone_outcome(zone: ZoneSpec) -> Option<ZonePlanError> {
    if offset_in_range(zone.utc_offset_minutes) {
        None
    } else {
        Some(
            ZonePlanError::InvalidZoneUtcOffset {
                zone_id: zone.id,
                utc_offset_minutes: zone.utc_offset_minutes,
            },
        )
    }
}

/// The outcome of validating a list of zones: at least one zone, each
/// within fourteen hours of UTC.
pub open spec fn zones_check(zones: Seq<ZoneSpec>) -> Result<(), ZonePlanError> {
    if zones.len() == 0 {
        Err(ZonePlanError::EmptyZones)
    } else {
        first_error(Seq::new(zones.len(), |j: int| zone_outcome(zones[j])))
    }
}

/// Requires at least one zone, and every zone within fourteen hours of UTC.
pub fn validate_zones(zones: &Vec<ZoneSpec>) -> (r: Result<(), ZonePlanError>)
    ensures
        r == zones_check(zones@),
{
    if zones.len() == 0 {
        return Err(ZonePlanError::EmptyZones);
    }
    let ghost outcomes = Seq::new(zones@.len(), |j: int| zone_outcome(zones@[j]));
    let mut i: usize = 0;
    while i < zones.len()
        invariant
            i <= zones@.len(),
            zones@.len() > 0,
            outcomes == Seq::new(zones@.len(), |j: int| zone_outcome(zones@[j])),
            first_error(outcomes) == first_error_from(outcomes, i as int),
        decreases zones@.len() - i,
    {
        let zone = &zones[i];
        if !(-MAX_UTC_OFFSET_MINUTES <= zone.utc_offset_minutes && zone.utc_offset_minutes
            <= MAX_UTC_OFFSET_MINUTES) {
            let e = ZonePlanError::InvalidZoneUtcOffset {
                zone_id: zone.id.clone(),
                utc_offset_minutes: zone.utc_offset_minutes,
            };
            assert(outcomes[i as int] == Some(e));
            return Err(e);
        }
        assert(outcomes[i as int] is None);
        i = i + 1;
    }
    Ok(())
}

/// The magnitude of an offset, modulo one hour.
pub open spec fn minutes_past_hour(offset: i32) -> int {
    (if offset < 0 {
        -offset
    } else {
        offset as int
    }) % 60
}

/// Zones on a whole-hour offset.
pub open spec fn zone_whole_hour() -> spec_fn(ZoneSpec) -> bool {
    |z: ZoneSpec| minutes_past_hour(z.utc_offset_minutes) == 0
}

/// Zones on a half-hour offset.
pub open spec fn zone_half_hour() -> spec_fn(ZoneSpec) -> bool {
    |z: ZoneSpec| minutes_past_hour(z.utc_offset_minutes) == 30
}

/// Zones on a quarter-hour offset that is not a half hour.
pub open spec fn zone_quarter_hour() -> spec_fn(ZoneSpec) -> bool {
    |z: ZoneSpec|
        minutes_past_hour(z.utc_offset_minutes) == 15 || minutes_past_hour(z.utc_offset_minutes)
            == 45
}

/// The smallest offset of a list of zones; `i32::MAX` for no zones.
pub open spec fn min_offset(zones: Seq<ZoneSpec>) -> int
    decreases zones.len(),
{
    if zones.len() == 0 {
        i32::MAX as int
    } else {
        let rest = min_offset(zones.drop_last());
        let last = zones.last().utc_offset_minutes as int;
        if last < rest {
            last
        } else {
            rest
        }
    }
}

/// The largest offset of a list of zones; `i32::MIN` for no zones.
pub open spec fn max_offset(zones: Seq<ZoneSpec>) -> int
    decreases zones.len(),
{
    if zones.len() == 0 {
        i32::MIN as int
    } else {
        let rest = max_offset(zones.drop_last());
        let last = zones.last().utc_offset_minutes as int;
        if last > rest {
            last
        } else {
            rest
        }
    }
}

impl ZoneCatalog {
    /// The outcome of validating a catalog.
    pub open spec fn check(self) -> Result<(), ZonePlanError> {
        if self.catalog_id@.len() == 0 {
            Err(ZonePlanError::EmptyId { kind: "zone_catalog.catalog_id" })
        } else if self.source_manifest_id@.len() == 0 {
            Err(ZonePlanError::EmptyId { kind: "zone_catalog.source_manifest_id" })
        } else if self.generated_on@.len() == 0 {
            Err(ZonePlanError::EmptyId { kind: "zone_catalog.generated_on" })
        } else {
            zones_check(self.zones@)
        }
    }

    /// The report on a valid catalog.
    pub open spec fn summary(self) -> ZoneCatalogReport {
        let z = self.zones@;
        let whole = count_where(z, zone_whole_hour());
        ZoneCatalogReport {
            catalog_id: self.catalog_id,
            zone_count: z.len() as usize,
            whole_hour_offset_count: whole as usize,
            non_whole_hour_offset_count: (z.len() - whole) as usize,
            half_hour_offset_count: count_where(z, zone_half_hour()) as usize,
            quarter_hour_offset_count: count_where(z, zone_quarter_hour()) as usize,
            min_utc_offset_minutes: min_offset(z) as i32,
            max_utc_offset_minutes: max_offset(z) as i32,
        }
    }

    /// Requires non-empty ids and date, and valid zones.
    pub fn validate(&self) -> (r: Result<(), ZonePlanError>)
        ensures
            r == self.check(),
    {
        validate_non_empty_plan("zone_catalog.catalog_id", &self.catalog_id)?;
        validate_non_empty_plan("zone_catalog.source_manifest_id", &self.source_manifest_id)?;
        validate_non_empty_plan("zone_catalog.generated_on", &self.generated_on)?;
        validate_zones(&self.zones)
    }

    /// Validates the catalog, then counts whole-, half-, and quarter-hour
    /// offsets and finds the offset range.
    pub fn report(&self) -> (r: Result<ZoneCatalogReport, ZonePlanError>)
        ensures
            r == match self.check() {
                Err(e) => Err(e),
                Ok(_) => Ok(self.summary()),
            },
    {
        self.validate()?;
        let ghost z = self.zones@;
        proof {
            lemma_zones_in_range(z);
        }
        let mut whole: usize = 0;
        let mut non_whole: usize = 0;
        let mut half: usize = 0;
        let mut quarter: usize = 0;
        let mut min_offset_seen: i32 = i32::MAX;
        let mut max_offset_seen: i32 = i32::MIN;
        let mut i: usize = 0;
        while i < self.zones.len()
            invariant
                z == self.zones@,
                i <= z.len(),
                forall|j: int| 0 <= j < z.len() ==> offset_in_range(#[trigger] z[j].utc_offset_minutes),
                whole == count_where(z.take(i as int), zone_whole_hour()),
                whole + non_whole == i,
                half == count_where(z.take(i as int), zone_half_hour()),
                quarter == count_where(z.take(i as int), zone_quarter_hour()),
                min_offset_seen == min_offset(z.take(i as int)),
                max_offset_seen == max_offset(z.take(i as int)),
            decreases z.len() - i,
        {
            proof {
                lemma_prefix_step(z, i as int);
                lemma_count_bound(z.take(i as int), zone_whole_hour());
                lemma_count_bound(z.take(i as int), zone_half_hour());
                lemma_count_bound(z.take(i as int), zone_quarter_hour());
                assert(z.take(i + 1).drop_last() =~= z.take(i as int));
            }
            let offset = self.zones[i].utc_offset_minutes;
            assert(offset_in_range(z[i as int].utc_offset_minutes));
            if offset < min_offset_seen {
                min_offset_seen = offset;
            }
            if offset > max_offset_seen {
                max_offset_seen = offset;
            }
            let magnitude: i32 = if offset < 0 {
                -offset
            } else {
                offset
            };
            let past = magnitude % 60;
            assert(past == minutes_past_hour(offset));
            if past == 0 {
                whole = whole + 1;
            } else {
                non_whole = non_whole + 1;
            }
            if past == 30 {
                half = half + 1;
            }
            if past == 15 || past == 45 {
                quarter = quarter + 1;
            }
            i = i + 1;
        }
        proof {
            lemma_take_all(z);
        }
        Ok(
            ZoneCatalogReport {
                catalog_id: self.catalog_id.clone(),
                zone_count: self.zones.len(),
                whole_hour_offset_count: whole,
                non_whole_hour_offset_count: non_whole,
                half_hour_offset_count: half,
                quarter_hour_offset_count: quarter,
                min_utc_offset_minutes: min_offset_seen,
                max_utc_offset_minutes: max_offset_seen,
            },
        )
    }
}

/// Zones that pass the zone checks all lie within fourteen hours of UTC.
pub proof fn lemma_zones_in_range(zones: Seq<ZoneSpec>)
    requires
        zones_check(zones) is Ok,
    ensures
        forall|j: int| 0 <= j < zones.len() ==> offset_in_range(#[trigger] zones[j].utc_offset_minutes),
{
    let outcomes = Seq::new(zones.len(), |j: int| zone_outcome(zones[j]));
    crate::checks::lemma_first_error_ok(outcomes);
    assert forall|j: int| 0 <= j < zones.len() implies offset_in_range(
        #[trigger] zones[j].utc_offset_minutes,
    ) by {
        assert(outcomes[j] is None);
    }
}

} // verus!
