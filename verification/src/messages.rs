use vstd::prelude::*;

use crate::errors::{TemporalModelError, ZonePlanError};
use crate::format::{decimal, decimal_text, signed_decimal, signed_decimal_text};

verus! {

impl TemporalModelError {
    /// The human-readable text of the error.
    pub open spec fn text(self) -> Seq<char> {
        match self {
            TemporalModelError::InvalidTemporalExtent { valid_from, valid_to } => "temporal extent valid_from "@ + valid_from@ + " must be earlier than valid_to "@ + valid_to@,
            TemporalModelError::EmptyId { kind } => "empty id for "@ + kind@,
            TemporalModelError::InvalidLatitude { latitude } => "representative point latitude "@ + latitude@ + " is outside [-90, 90]"@,
            TemporalModelError::InvalidLongitude { longitude } => "representative point longitude "@ + longitude@ + " is outside [-180, 180]"@,
            TemporalModelError::GraphUnitMismatch { adjacency_len, unit_count } => "boundary graph adjacency length "@ + decimal(adjacency_len as nat) + " does not match unit count "@ + decimal(unit_count as nat),
            TemporalModelError::EdgeOutOfBounds { from, to, unit_count } => "edge from "@ + decimal(from as nat) + " to "@ + decimal(to as nat) + " is outside unit range 0.."@ + decimal(unit_count as nat),
            TemporalModelError::InvalidEdgeWeight { from, to, weight } => "edge from "@ + decimal(from as nat) + " to "@ + decimal(to as nat) + " has invalid weight "@ + weight@,
            TemporalModelError::InvalidUtcOffset { rule_id, standard_offset_minutes } => "offset rule "@ + rule_id@ + " has unsupported UTC offset "@ + signed_decimal(standard_offset_minutes as int),
            TemporalModelError::UnknownAssignmentUnit { unit_id } => "assignment references unknown unit id "@ + unit_id@,
            TemporalModelError::UnknownAssignmentZone { zone_id } => "assignment references unknown zone id "@ + zone_id@,
            TemporalModelError::DuplicateSourceId { source_id } => "source manifest contains duplicate source id "@ + source_id@,
            TemporalModelError::DuplicateSourceLimitationSourceId { source_id } => "source limitation matrix contains duplicate source id "@ + source_id@,
            TemporalModelError::DuplicateSourceGateEntrySourceId { source_id } => "source gate policy contains duplicate source id "@ + source_id@,
            TemporalModelError::DuplicateModuleBoundaryModuleId { module_id } => "module boundary contract contains duplicate module id "@ + module_id@,
            TemporalModelError::EmptySourceUrl { source_id } => "source "@ + source_id@ + " has empty URL"@,
            TemporalModelError::EmptySourceAssessments { source_id } => "source limitation entry "@ + source_id@ + " has no assessments"@,
            TemporalModelError::EmptyModuleOwnership { module_id } => "module boundary entry "@ + module_id@ + " has no ownership statements"@,
            TemporalModelError::UnknownSourceReference { owner_kind, source_id } => owner_kind@ + " references unknown source id "@ + source_id@,
            TemporalModelError::DuplicateDatasetId { kind, id } => "dataset contains duplicate "@ + kind@ + " id "@ + id@,
            TemporalModelError::UnknownEvaluationBoundaryGraph { boundary_graph_id } => "evaluation context references unknown boundary graph "@ + boundary_graph_id@,
            TemporalModelError::UnknownEvaluationRegime { regime_id } => "evaluation context references unknown regime "@ + regime_id@,
            TemporalModelError::UnknownJurisdiction { owner_kind, jurisdiction_id } => owner_kind@ + " references unknown jurisdiction "@ + jurisdiction_id@,
        }
    }

    /// Writes the human-readable text of the error.
    pub fn message(&self) -> (m: String)
        ensures
            m@ == self.text(),
    {
        match self {
            TemporalModelError::InvalidTemporalExtent { valid_from, valid_to } => {
                let mut m = String::from_str("temporal extent valid_from ");
                m.append(valid_from.as_str());
                m.append(" must be earlier than valid_to ");
                m.append(valid_to.as_str());
                m
            },
            TemporalModelError::EmptyId { kind } => {
                let mut m = String::from_str("empty id for ");
                m.append(kind);
                m
            },
            TemporalModelError::InvalidLatitude { latitude } => {
                let mut m = String::from_str("representative point latitude ");
                m.append(latitude.as_str());
                m.append(" is outside [-90, 90]");
                m
            },
            TemporalModelError::InvalidLongitude { longitude } => {
                let mut m = String::from_str("representative point longitude ");
                m.append(longitude.as_str());
                m.append(" is outside [-180, 180]");
                m
            },
            TemporalModelError::GraphUnitMismatch { adjacency_len, unit_count } => {
                let mut m = String::from_str("boundary graph adjacency length ");
                let t = decimal_text(*adjacency_len as u64);
                m.append(t.as_str());
                m.append(" does not match unit count ");
                let t = decimal_text(*unit_count as u64);
                m.append(t.as_str());
                m
            },
            TemporalModelError::EdgeOutOfBounds { from, to, unit_count } => {
                let mut m = String::from_str("edge from ");
                let t = decimal_text(*from as u64);
                m.append(t.as_str());
                m.append(" to ");
                let t = decimal_text(*to as u64);
                m.append(t.as_str());
                m.append(" is outside unit range 0..");
                let t = decimal_text(*unit_count as u64);
                m.append(t.as_str());
                m
            },
            TemporalModelError::InvalidEdgeWeight { from, to, weight } => {
                let mut m = String::from_str("edge from ");
                let t = decimal_text(*from as u64);
                m.append(t.as_str());
                m.append(" to ");
                let t = decimal_text(*to as u64);
                m.append(t.as_str());
                m.append(" has invalid weight ");
                m.append(weight.as_str());
                m
            },
            TemporalModelError::InvalidUtcOffset { rule_id, standard_offset_minutes } => {
                let mut m = String::from_str("offset rule ");
                m.append(rule_id.as_str());
                m.append(" has unsupported UTC offset ");
                let t = signed_decimal_text(*standard_offset_minutes as i64);
                m.append(t.as_str());
                m
            },
            TemporalModelError::UnknownAssignmentUnit { unit_id } => {
                let mut m = String::from_str("assignment references unknown unit id ");
                m.append(unit_id.as_str());
                m
            },
            TemporalModelError::UnknownAssignmentZone { zone_id } => {
                let mut m = String::from_str("assignment references unknown zone id ");
                m.append(zone_id.as_str());
                m
            },
            TemporalModelError::DuplicateSourceId { source_id } => {
                let mut m = String::from_str("source manifest contains duplicate source id ");
                m.append(source_id.as_str());
                m
            },
            TemporalModelError::DuplicateSourceLimitationSourceId { source_id } => {
                let mut m = String::from_str("source limitation matrix contains duplicate source id ");
                m.append(source_id.as_str());
                m
            },
            TemporalModelError::DuplicateSourceGateEntrySourceId { source_id } => {
                let mut m = String::from_str("source gate policy contains duplicate source id ");
                m.append(source_id.as_str());
                m
            },
            TemporalModelError::DuplicateModuleBoundaryModuleId { module_id } => {
                let mut m = String::from_str("module boundary contract contains duplicate module id ");
                m.append(module_id.as_str());
                m
            },
            TemporalModelError::EmptySourceUrl { source_id } => {
                let mut m = String::from_str("source ");
                m.append(source_id.as_str());
                m.append(" has empty URL");
                m
            },
            TemporalModelError::EmptySourceAssessments { source_id } => {
                let mut m = String::from_str("source limitation entry ");
                m.append(source_id.as_str());
                m.append(" has no assessments");
                m
            },
            TemporalModelError::EmptyModuleOwnership { module_id } => {
                let mut m = String::from_str("module boundary entry ");
                m.append(module_id.as_str());
                m.append(" has no ownership statements");
                m
            },
            TemporalModelError::UnknownSourceReference { owner_kind, source_id } => {
                let mut m = String::new();
                m.append(owner_kind);
                m.append(" references unknown source id ");
                m.append(source_id.as_str());
                m
            },
            TemporalModelError::DuplicateDatasetId { kind, id } => {
                let mut m = String::from_str("dataset contains duplicate ");
                m.append(kind);
                m.append(" id ");
                m.append(id.as_str());
                m
            },
            TemporalModelError::UnknownEvaluationBoundaryGraph { boundary_graph_id } => {
                let mut m = String::from_str("evaluation context references unknown boundary graph ");
                m.append(boundary_graph_id.as_str());
                m
            },
            TemporalModelError::UnknownEvaluationRegime { regime_id } => {
                let mut m = String::from_str("evaluation context references unknown regime ");
                m.append(regime_id.as_str());
                m
            },
            TemporalModelError::UnknownJurisdiction { owner_kind, jurisdiction_id } => {
                let mut m = String::new();
                m.append(owner_kind);
                m.append(" references unknown jurisdiction ");
                m.append(jurisdiction_id.as_str());
                m
            },
        }
    }
}

impl ZonePlanError {
    /// The human-readable text of the error.
    pub open spec fn text(self) -> Seq<char> {
        match self {
            ZonePlanError::UnitAssignmentMismatch { unit_count, assignment_count } => "unit count "@ + decimal(unit_count as nat) + " does not match plan assignment count "@ + decimal(assignment_count as nat),
            ZonePlanError::AdjacencyUnitMismatch { adjacency_count, unit_count } => "adjacency count "@ + decimal(adjacency_count as nat) + " does not match unit count "@ + decimal(unit_count as nat),
            ZonePlanError::EmptyZones => "plan must define at least one zone"@,
            ZonePlanError::InvalidZoneUtcOffset { zone_id, utc_offset_minutes } => "zone "@ + zone_id@ + " has unsupported UTC offset "@ + signed_decimal(utc_offset_minutes as int),
            ZonePlanError::UnknownZone { unit_index, zone_index } => "unit "@ + decimal(unit_index as nat) + " is assigned to missing zone index "@ + decimal(zone_index as nat),
            ZonePlanError::ReferenceAssignmentMismatch { reference_assignment_count, unit_count } => "reference assignment count "@ + decimal(reference_assignment_count as nat) + " does not match unit count "@ + decimal(unit_count as nat),
            ZonePlanError::UnknownReferenceZone { unit_index, zone_index } => "unit "@ + decimal(unit_index as nat) + " has reference assignment to missing zone index "@ + decimal(zone_index as nat),
            ZonePlanError::EdgeOutOfBounds { from, to, unit_count } => "edge from "@ + decimal(from as nat) + " to "@ + decimal(to as nat) + " is outside unit range 0.."@ + decimal(unit_count as nat),
            ZonePlanError::EmptyPopulation => "total population must be greater than zero"@,
            ZonePlanError::InvalidMapLatitude { unit_id, latitude } => "unit "@ + unit_id@ + " map latitude "@ + latitude@ + " is outside [-90, 90]"@,
            ZonePlanError::InvalidMapLongitude { unit_id, longitude } => "unit "@ + unit_id@ + " map longitude "@ + longitude@ + " is outside [-180, 180]"@,
            ZonePlanError::MissingRplanGraph => "RPLAN context has no graph"@,
            ZonePlanError::MissingRplanPopulations => "RPLAN context has no populations"@,
            ZonePlanError::SolarOffsetMismatch { solar_offset_count, unit_count } => "solar offset count "@ + decimal(solar_offset_count as nat) + " does not match RPLAN unit count "@ + decimal(unit_count as nat),
            ZonePlanError::NegativeRplanPopulation { unit_index } => "RPLAN population at unit "@ + decimal(unit_index as nat) + " must be non-negative"@,
            ZonePlanError::RplanContext(f0) => "RPLAN context validation failed: "@ + f0@,
            ZonePlanError::BoundaryMetric(f0) => "graph boundary metric failed: "@ + f0@,
            ZonePlanError::Connectivity(f0) => "graph connectivity metric failed: "@ + f0@,
            ZonePlanError::EmptyId { kind } => "empty id for "@ + kind@,
            ZonePlanError::SourceManifest(f0) => "source manifest validation failed: "@ + f0@,
            ZonePlanError::SourceManifestMismatch { input_source_manifest_id, manifest_id } => "plan input source_manifest_id "@ + input_source_manifest_id@ + " does not match manifest id "@ + manifest_id@,
            ZonePlanError::ScenarioAuthorityRequired { scenario_id } => "scenario "@ + scenario_id@ + " is missing authority_source_id for current-law or historical-law evaluation"@,
            ZonePlanError::UnknownScenarioAuthoritySource { scenario_id, source_id } => "scenario "@ + scenario_id@ + " references unknown authority source "@ + source_id@,
            ZonePlanError::UnknownUnitSourceReference { unit_id, field, source_id } => "unit "@ + unit_id@ + " "@ + field@ + " references unknown source "@ + source_id@,
            ZonePlanError::ZoneCatalog(f0) => "zone catalog validation failed: "@ + f0@,
            ZonePlanError::ZoneCatalogSourceManifestMismatch { catalog_source_manifest_id, manifest_id } => "zone catalog source_manifest_id "@ + catalog_source_manifest_id@ + " does not match source manifest id "@ + manifest_id@,
            ZonePlanError::PlanZoneMissingFromCatalog { zone_id, catalog_id } => "plan zone "@ + zone_id@ + " is missing from zone catalog "@ + catalog_id@,
            ZonePlanError::PlanZoneCatalogOffsetMismatch { zone_id, plan_utc_offset_minutes, catalog_utc_offset_minutes } => "plan zone "@ + zone_id@ + " offset "@ + signed_decimal(plan_utc_offset_minutes as int) + " does not match catalog offset "@ + signed_decimal(catalog_utc_offset_minutes as int),
        }
    }

    /// Writes the human-readable text of the error.
    pub fn message(&self) -> (m: String)
        ensures
            m@ == self.text(),
    {
        match self {
            ZonePlanError::UnitAssignmentMismatch { unit_count, assignment_count } => {
                let mut m = String::from_str("unit count ");
                let t = decimal_text(*unit_count as u64);
                m.append(t.as_str());
                m.append(" does not match plan assignment count ");
                let t = decimal_text(*assignment_count as u64);
                m.append(t.as_str());
                m
            },
            ZonePlanError::AdjacencyUnitMismatch { adjacency_count, unit_count } => {
                let mut m = String::from_str("adjacency count ");
                let t = decimal_text(*adjacency_count as u64);
                m.append(t.as_str());
                m.append(" does not match unit count ");
                let t = decimal_text(*unit_count as u64);
                m.append(t.as_str());
                m
            },
            ZonePlanError::EmptyZones => {
                let mut m = String::from_str("plan must define at least one zone");
                m
            },
            ZonePlanError::InvalidZoneUtcOffset { zone_id, utc_offset_minutes } => {
                let mut m = String::from_str("zone ");
                m.append(zone_id.as_str());
                m.append(" has unsupported UTC offset ");
                let t = signed_decimal_text(*utc_offset_minutes as i64);
                m.append(t.as_str());
                m
            },
            ZonePlanError::UnknownZone { unit_index, zone_index } => {
                let mut m = String::from_str("unit ");
                let t = decimal_text(*unit_index as u64);
                m.append(t.as_str());
                m.append(" is assigned to missing zone index ");
                let t = decimal_text(*zone_index as u64);
                m.append(t.as_str());
                m
            },
            ZonePlanError::ReferenceAssignmentMismatch { reference_assignment_count, unit_count } => {
                let mut m = String::from_str("reference assignment count ");
                let t = decimal_text(*reference_assignment_count as u64);
                m.append(t.as_str());
                m.append(" does not match unit count ");
                let t = decimal_text(*unit_count as u64);
                m.append(t.as_str());
                m
            },
            ZonePlanError::UnknownReferenceZone { unit_index, zone_index } => {
                let mut m = String::from_str("unit ");
                let t = decimal_text(*unit_index as u64);
                m.append(t.as_str());
                m.append(" has reference assignment to missing zone index ");
                let t = decimal_text(*zone_index as u64);
                m.append(t.as_str());
                m
            },
            ZonePlanError::EdgeOutOfBounds { from, to, unit_count } => {
                let mut m = String::from_str("edge from ");
                let t = decimal_text(*from as u64);
                m.append(t.as_str());
                m.append(" to ");
                let t = decimal_text(*to as u64);
                m.append(t.as_str());
                m.append(" is outside unit range 0..");
                let t = decimal_text(*unit_count as u64);
                m.append(t.as_str());
                m
            },
            ZonePlanError::EmptyPopulation => {
                let mut m = String::from_str("total population must be greater than zero");
                m
            },
            ZonePlanError::InvalidMapLatitude { unit_id, latitude } => {
                let mut m = String::from_str("unit ");
                m.append(unit_id.as_str());
                m.append(" map latitude ");
                m.append(latitude.as_str());
                m.append(" is outside [-90, 90]");
                m
            },
            ZonePlanError::InvalidMapLongitude { unit_id, longitude } => {
                let mut m = String::from_str("unit ");
                m.append(unit_id.as_str());
                m.append(" map longitude ");
                m.append(longitude.as_str());
                m.append(" is outside [-180, 180]");
                m
            },
            ZonePlanError::MissingRplanGraph => {
                let mut m = String::from_str("RPLAN context has no graph");
                m
            },
            ZonePlanError::MissingRplanPopulations => {
                let mut m = String::from_str("RPLAN context has no populations");
                m
            },
            ZonePlanError::SolarOffsetMismatch { solar_offset_count, unit_count } => {
                let mut m = String::from_str("solar offset count ");
                let t = decimal_text(*solar_offset_count as u64);
                m.append(t.as_str());
                m.append(" does not match RPLAN unit count ");
                let t = decimal_text(*unit_count as u64);
                m.append(t.as_str());
                m
            },
            ZonePlanError::NegativeRplanPopulation { unit_index } => {
                let mut m = String::from_str("RPLAN population at unit ");
                let t = decimal_text(*unit_index as u64);
                m.append(t.as_str());
                m.append(" must be non-negative");
                m
            },
            ZonePlanError::RplanContext(f0) => {
                let mut m = String::from_str("RPLAN context validation failed: ");
                m.append(f0.as_str());
                m
            },
            ZonePlanError::BoundaryMetric(f0) => {
                let mut m = String::from_str("graph boundary metric failed: ");
                m.append(f0.as_str());
                m
            },
            ZonePlanError::Connectivity(f0) => {
                let mut m = String::from_str("graph connectivity metric failed: ");
                m.append(f0.as_str());
                m
            },
            ZonePlanError::EmptyId { kind } => {
                let mut m = String::from_str("empty id for ");
                m.append(kind);
                m
            },
            ZonePlanError::SourceManifest(f0) => {
                let mut m = String::from_str("source manifest validation failed: ");
                m.append(f0.as_str());
                m
            },
            ZonePlanError::SourceManifestMismatch { input_source_manifest_id, manifest_id } => {
                let mut m = String::from_str("plan input source_manifest_id ");
                m.append(input_source_manifest_id.as_str());
                m.append(" does not match manifest id ");
                m.append(manifest_id.as_str());
                m
            },
            ZonePlanError::ScenarioAuthorityRequired { scenario_id } => {
                let mut m = String::from_str("scenario ");
                m.append(scenario_id.as_str());
                m.append(" is missing authority_source_id for current-law or historical-law evaluation");
                m
            },
            ZonePlanError::UnknownScenarioAuthoritySource { scenario_id, source_id } => {
                let mut m = String::from_str("scenario ");
                m.append(scenario_id.as_str());
                m.append(" references unknown authority source ");
                m.append(source_id.as_str());
                m
            },
            ZonePlanError::UnknownUnitSourceReference { unit_id, field, source_id } => {
                let mut m = String::from_str("unit ");
                m.append(unit_id.as_str());
                m.append(" ");
                m.append(field);
                m.append(" references unknown source ");
                m.append(source_id.as_str());
                m
            },
            ZonePlanError::ZoneCatalog(f0) => {
                let mut m = String::from_str("zone catalog validation failed: ");
                m.append(f0.as_str());
                m
            },
            ZonePlanError::ZoneCatalogSourceManifestMismatch { catalog_source_manifest_id, manifest_id } => {
                let mut m = String::from_str("zone catalog source_manifest_id ");
                m.append(catalog_source_manifest_id.as_str());
                m.append(" does not match source manifest id ");
                m.append(manifest_id.as_str());
                m
            },
            ZonePlanError::PlanZoneMissingFromCatalog { zone_id, catalog_id } => {
                let mut m = String::from_str("plan zone ");
                m.append(zone_id.as_str());
                m.append(" is missing from zone catalog ");
                m.append(catalog_id.as_str());
                m
            },
            ZonePlanError::PlanZoneCatalogOffsetMismatch { zone_id, plan_utc_offset_minutes, catalog_utc_offset_minutes } => {
                let mut m = String::from_str("plan zone ");
                m.append(zone_id.as_str());
                m.append(" offset ");
                let t = signed_decimal_text(*plan_utc_offset_minutes as i64);
                m.append(t.as_str());
                m.append(" does not match catalog offset ");
                let t = signed_decimal_text(*catalog_utc_offset_minutes as i64);
                m.append(t.as_str());
                m
            },
        }
    }
}

} // verus!
