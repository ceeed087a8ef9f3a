use vstd::prelude::*;

verus! {

/// Errors raised while validating source, temporal, and boundary records.
#[derive(Debug, Clone, PartialEq, Eq)]
pub enum TemporalModelError {
    InvalidTemporalExtent { valid_from: String, valid_to: String },
    EmptyId { kind: &'static str },
    InvalidLatitude { latitude: String },
    InvalidLongitude { longitude: String },
    GraphUnitMismatch { adjacency_len: usize, unit_count: usize },
    EdgeOutOfBounds { from: usize, to: usize, unit_count: usize },
    InvalidEdgeWeight { from: usize, to: usize, weight: String },
    InvalidUtcOffset { rule_id: String, standard_offset_minutes: i32 },
    UnknownAssignmentUnit { unit_id: String },
    UnknownAssignmentZone { zone_id: String },
    DuplicateSourceId { source_id: String },
    DuplicateSourceLimitationSourceId { source_id: String },
    DuplicateSourceGateEntrySourceId { source_id: String },
    DuplicateModuleBoundaryModuleId { module_id: String },
    EmptySourceUrl { source_id: String },
    EmptySourceAssessments { source_id: String },
    EmptyModuleOwnership { module_id: String },
    UnknownSourceReference { owner_kind: &'static str, source_id: String },
    DuplicateDatasetId { kind: &'static str, id: String },
    UnknownEvaluationBoundaryGraph { boundary_graph_id: String },
    UnknownEvaluationRegime { regime_id: String },
    UnknownJurisdiction { owner_kind: &'static str, jurisdiction_id: String },
}

/// Errors raised while validating zone plans, scenarios, and catalogs.
#[derive(Debug, Clone, PartialEq, Eq)]
pub enum ZonePlanError {
    UnitAssignmentMismatch { unit_count: usize, assignment_count: usize },
    AdjacencyUnitMismatch { adjacency_count: usize, unit_count: usize },
    EmptyZones,
    InvalidZoneUtcOffset { zone_id: String, utc_offset_minutes: i32 },
    UnknownZone { unit_index: usize, zone_index: usize },
    ReferenceAssignmentMismatch { reference_assignment_count: usize, unit_count: usize },
    UnknownReferenceZone { unit_index: usize, zone_index: usize },
    EdgeOutOfBounds { from: usize, to: usize, unit_count: usize },
    EmptyPopulation,
    InvalidMapLatitude { unit_id: String, latitude: String },
    InvalidMapLongitude { unit_id: String, longitude: String },
    MissingRplanGraph,
    MissingRplanPopulations,
    SolarOffsetMismatch { solar_offset_count: usize, unit_count: usize },
    NegativeRplanPopulation { unit_index: usize },
    RplanContext(String),
    BoundaryMetric(String),
    Connectivity(String),
    EmptyId { kind: &'static str },
    SourceManifest(String),
    SourceManifestMismatch { input_source_manifest_id: String, manifest_id: String },
    ScenarioAuthorityRequired { scenario_id: String },
    UnknownScenarioAuthoritySource { scenario_id: String, source_id: String },
    UnknownUnitSourceReference { unit_id: String, field: &'static str, source_id: String },
    ZoneCatalog(String),
    ZoneCatalogSourceManifestMismatch { catalog_source_manifest_id: String, manifest_id: String },
    PlanZoneMissingFromCatalog { zone_id: String, catalog_id: String },
    PlanZoneCatalogOffsetMismatch {
        zone_id: String,
        plan_utc_offset_minutes: i32,
        catalog_utc_offset_minutes: i32,
    },
}

impl TemporalModelError {
    /// A copy of the error, field for field.
    pub fn duplicate(&self) -> (r: Self)
        ensures
            r == *self,
    {
        match self {
            TemporalModelError::InvalidTemporalExtent { valid_from, valid_to } => TemporalModelError::InvalidTemporalExtent { valid_from: valid_from.clone(), valid_to: valid_to.clone() },
            TemporalModelError::EmptyId { kind } => TemporalModelError::EmptyId { kind: *kind },
            TemporalModelError::InvalidLatitude { latitude } => TemporalModelError::InvalidLatitude { latitude: latitude.clone() },
            TemporalModelError::InvalidLongitude { longitude } => TemporalModelError::InvalidLongitude { longitude: longitude.clone() },
            TemporalModelError::GraphUnitMismatch { adjacency_len, unit_count } => TemporalModelError::GraphUnitMismatch { adjacency_len: *adjacency_len, unit_count: *unit_count },
            TemporalModelError::EdgeOutOfBounds { from, to, unit_count } => TemporalModelError::EdgeOutOfBounds { from: *from, to: *to, unit_count: *unit_count },
            TemporalModelError::InvalidEdgeWeight { from, to, weight } => TemporalModelError::InvalidEdgeWeight { from: *from, to: *to, weight: weight.clone() },
            TemporalModelError::InvalidUtcOffset { rule_id, standard_offset_minutes } => TemporalModelError::InvalidUtcOffset { rule_id: rule_id.clone(), standard_offset_minutes: *standard_offset_minutes },
            TemporalModelError::UnknownAssignmentUnit { unit_id } => TemporalModelError::UnknownAssignmentUnit { unit_id: unit_id.clone() },
            TemporalModelError::UnknownAssignmentZone { zone_id } => TemporalModelError::UnknownAssignmentZone { zone_id: zone_id.clone() },
            TemporalModelError::DuplicateSourceId { source_id } => TemporalModelError::DuplicateSourceId { source_id: source_id.clone() },
            TemporalModelError::DuplicateSourceLimitationSourceId { source_id } => TemporalModelError::DuplicateSourceLimitationSourceId { source_id: source_id.clone() },
            TemporalModelError::DuplicateSourceGateEntrySourceId { source_id } => TemporalModelError::DuplicateSourceGateEntrySourceId { source_id: source_id.clone() },
            TemporalModelError::DuplicateModuleBoundaryModuleId { module_id } => TemporalModelError::DuplicateModuleBoundaryModuleId { module_id: module_id.clone() },
            TemporalModelError::EmptySourceUrl { source_id } => TemporalModelError::EmptySourceUrl { source_id: source_id.clone() },
            TemporalModelError::EmptySourceAssessments { source_id } => TemporalModelError::EmptySourceAssessments { source_id: source_id.clone() },
            TemporalModelError::EmptyModuleOwnership { module_id } => TemporalModelError::EmptyModuleOwnership { module_id: module_id.clone() },
            TemporalModelError::UnknownSourceReference { owner_kind, source_id } => TemporalModelError::UnknownSourceReference { owner_kind: *owner_kind, source_id: source_id.clone() },
            TemporalModelError::DuplicateDatasetId { kind, id } => TemporalModelError::DuplicateDatasetId { kind: *kind, id: id.clone() },
            TemporalModelError::UnknownEvaluationBoundaryGraph { boundary_graph_id } => TemporalModelError::UnknownEvaluationBoundaryGraph { boundary_graph_id: boundary_graph_id.clone() },
            TemporalModelError::UnknownEvaluationRegime { regime_id } => TemporalModelError::UnknownEvaluationRegime { regime_id: regime_id.clone() },
            TemporalModelError::UnknownJurisdiction { owner_kind, jurisdiction_id } => TemporalModelError::UnknownJurisdiction { owner_kind: *owner_kind, jurisdiction_id: jurisdiction_id.clone() },
        }
    }
}

/// The outcome of requiring a non-empty value.
pub open spec fn non_empty_check(kind: &'static str, value: Seq<char>) -> Result<(), TemporalModelError> {
    if value.len() == 0 {
        Err(TemporalModelError::EmptyId { kind })
    } else {
        Ok(())
    }
}

/// The outcome of requiring a non-empty value in a zone plan.
pub open spec fn plan_non_empty_check(kind: &'static str, value: Seq<char>) -> Result<(), ZonePlanError> {
    if value.len() == 0 {
        Err(ZonePlanError::EmptyId { kind })
    } else {
        Ok(())
    }
}

/// Rejects an empty value, naming it by `kind`.
pub fn validate_non_empty(kind: &'static str, value: &str) -> (r: Result<(), TemporalModelError>)
    ensures
        r == non_empty_check(kind, value@),
{
    if value.is_empty() {
        Err(TemporalModelError::EmptyId { kind })
    } else {
        Ok(())
    }
}

/// Rejects an empty zone-plan value, naming it by `kind`.
pub fn validate_non_empty_plan(kind: &'static str, value: &str) -> (r: Result<(), ZonePlanError>)
    ensures
        r == plan_non_empty_check(kind, value@),
{
    if value.is_empty() {
        Err(ZonePlanError::EmptyId { kind })
    } else {
        Ok(())
    }
}

} // verus!
