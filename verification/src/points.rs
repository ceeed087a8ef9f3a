use vstd::prelude::*;

use crate::checks::{
    count_where, first_error, first_error_from, lemma_count_bound, lemma_prefix_step,
    lemma_take_all, sum_of,
};
use crate::dataset::RepresentativePoint;
use crate::errors::{validate_non_empty, TemporalModelError};
use crate::limitations::lemma_sum_prefix;
use crate::sources::SourceManifest;
use crate::temporal::RepresentativePointMethod;
use crate::text::same_text;

verus! {

/// The representative point of one county. `solar_offset_error` holds the
/// error for a recorded solar offset that is not a finite number.
#[derive(Debug, Clone, PartialEq, Eq)]
pub struct CountyRepresentativePointRecord {
    pub unit_id: String,
    pub point: RepresentativePoint,
    pub solar_offset_error: Option<TemporalModelError>,
    pub caveats: Vec<String>,
}

/// A set of county representative points drawn from one manifest.
#[derive(Debug, Clone, PartialEq, Eq)]
pub struct CountyRepresentativePointSet {
    pub point_set_id: String,
    pub source_manifest_id: String,
    pub generated_on: String,
    pub records: Vec<CountyRepresentativePointRecord>,
}

/// Counts over a set of representative points, by placement method and caveats.
#[derive(Debug, Clone, PartialEq, Eq)]
pub struct RepresentativePointCounts {
    pub point_set_id: String,
    pub source_manifest_id: String,
    pub record_count: usize,
    pub internal_point_count: usize,
    pub population_center_count: usize,
    pub geometry_centroid_count: usize,
    pub source_provided_count: usize,
    pub imported_count: usize,
    pub caveated_record_count: usize,
    pub caveat_count: usize,
    pub exploratory_point_method: bool,
}

/// Records placed by the given method.
pub open spec fn record_with_method(method: RepresentativePointMethod) -> spec_fn(
    CountyRepresentativePointRecord,
) -> bool {
    |r: CountyRepresentativePointRecord| r.point.method == method
}

/// Records that carry at least one caveat.
pub open spec fn record_has_caveats() -> spec_fn(CountyRepresentativePointRecord) -> bool {
    |r: CountyRepresentativePointRecord| r.caveats@.len() > 0
}

/// The number of caveats of a record.
pub open spec fn record_caveat_count() -> spec_fn(CountyRepresentativePointRecord) -> nat {
    |r: CountyRepresentativePointRecord| r.caveats@.len()
}

impl CountyRepresentativePointRecord {
    /// The outcome of validating a record against a manifest.
    pub open spec fn check(self, manifest: SourceManifest) -> Result<(), TemporalModelError> {
        if self.unit_id@.len() == 0 {
            Err(TemporalModelError::EmptyId { kind: "county_representative_point.unit_id" })
        } else if self.point.check() is Err {
            self.point.check()
        } else if !manifest.id_set().contains(self.point.source_id@) {
            Err(
                TemporalModelError::UnknownSourceReference {
                    owner_kind: "county_representative_point.source_id",
                    source_id: self.point.source_id,
                },
            )
        } else {
            match self.solar_offset_error {
                Some(e) => Err(e),
                None => Ok(()),
            }
        }
    }

    /// Requires a unit id, a valid point whose source the manifest cites,
    /// and a finite solar offset.
    pub fn validate(&self, manifest: &SourceManifest) -> (r: Result<(), TemporalModelError>)
        ensures
            r == self.check(*manifest),
    {
        validate_non_empty("county_representative_point.unit_id", &self.unit_id)?;
        self.point.validate()?;
        if !manifest.has_source(self.point.source_id.as_str()) {
            return Err(
                TemporalModelError::UnknownSourceReference {
                    owner_kind: "county_representative_point.source_id",
                    source_id: self.point.source_id.clone(),
                },
            );
        }
        match &self.solar_offset_error {
            Some(e) => Err(e.duplicate()),
            None => Ok(()),
        }
    }
}

impl CountyRepresentativePointSet {
    /// The outcomes of checking each record in turn.
    pub open spec fn record_outcomes(self, manifest: SourceManifest) -> Seq<
        Option<TemporalModelError>,
    > {
        Seq::new(
            self.records@.len(),
            |j: int|
                match self.records@[j].check(manifest) {
                    Err(e) => Some(e),
                    Ok(_) => None,
                },
        )
    }

    /// The outcome of the checks that precede the counting.
    pub open spec fn check(self, manifest: SourceManifest) -> Result<(), TemporalModelError> {
        if manifest.check() is Err {
            manifest.check()
        } else if self.point_set_id@.len() == 0 {
            Err(TemporalModelError::EmptyId { kind: "county_representative_point_set.point_set_id" })
        } else if self.source_manifest_id@.len() == 0 {
            Err(
                TemporalModelError::EmptyId {
                    kind: "county_representative_point_set.source_manifest_id",
                },
            )
        } else if self.generated_on@.len() == 0 {
            Err(TemporalModelError::EmptyId { kind: "county_representative_point_set.generated_on" })
        } else if self.source_manifest_id@ != manifest.manifest_id@ {
            Err(
                TemporalModelError::UnknownSourceReference {
                    owner_kind: "county_representative_point_set.source_manifest_id",
                    source_id: self.source_manifest_id,
                },
            )
        } else {
            first_error(self.record_outcomes(manifest))
        }
    }

    /// The counts of a set whose checks pass.
    pub open spec fn summary(self) -> RepresentativePointCounts {
        let r = self.records@;
        let internal = count_where(r, record_with_method(RepresentativePointMethod::InternalPoint));
        let centroid = count_where(
            r,
            record_with_method(RepresentativePointMethod::GeometryCentroid),
        );
        RepresentativePointCounts {
            point_set_id: self.point_set_id,
            source_manifest_id: self.source_manifest_id,
            record_count: r.len() as usize,
            internal_point_count: internal as usize,
            population_center_count: count_where(
                r,
                record_with_method(RepresentativePointMethod::PopulationCenter),
            ) as usize,
            geometry_centroid_count: centroid as usize,
            source_provided_count: count_where(
                r,
                record_with_method(RepresentativePointMethod::SourceProvided),
            ) as usize,
            imported_count: count_where(r, record_with_method(RepresentativePointMethod::Imported))
                as usize,
            caveated_record_count: count_where(r, record_has_caveats()) as usize,
            caveat_count: sum_of(r, record_caveat_count()) as usize,
            exploratory_point_method: internal > 0 || centroid > 0,
        }
    }

    /// Validates the manifest, the set's fields, and each record, then
    /// counts records by placement method and caveats.
    pub fn report(&self, manifest: &SourceManifest) -> (r: Result<
        RepresentativePointCounts,
        TemporalModelError,
    >)
        requires
            sum_of(self.records@, record_caveat_count()) <= usize::MAX,
        ensures
            r == match self.check(*manifest) {
                Err(e) => Err(e),
                Ok(_) => Ok(self.summary()),
            },
    {
        manifest.validate()?;
        validate_non_empty("county_representative_point_set.point_set_id", &self.point_set_id)?;
        validate_non_empty(
            "county_representative_point_set.source_manifest_id",
            &self.source_manifest_id,
        )?;
        validate_non_empty("county_representative_point_set.generated_on", &self.generated_on)?;
        if !same_text(self.source_manifest_id.as_str(), manifest.manifest_id.as_str()) {
            return Err(
                TemporalModelError::UnknownSourceReference {
                    owner_kind: "county_representative_point_set.source_manifest_id",
                    source_id: self.source_manifest_id.clone(),
                },
            );
        }
        let ghost r = self.records@;
        let ghost outcomes = self.record_outcomes(*manifest);
        let mut counts = RepresentativePointCounts {
            point_set_id: self.point_set_id.clone(),
            source_manifest_id: self.source_manifest_id.clone(),
            record_count: self.records.len(),
            internal_point_count: 0,
            population_center_count: 0,
            geometry_centroid_count: 0,
            source_provided_count: 0,
            imported_count: 0,
            caveated_record_count: 0,
            caveat_count: 0,
            exploratory_point_method: false,
        };
        let mut i: usize = 0;
        while i < self.records.len()
            invariant
                r == self.records@,
                i <= r.len(),
                outcomes == self.record_outcomes(*manifest),
                self.check(*manifest) == first_error(outcomes),
                first_error(outcomes) == first_error_from(outcomes, i as int),
                sum_of(r, record_caveat_count()) <= usize::MAX,
                counts.point_set_id == self.point_set_id,
                counts.source_manifest_id == self.source_manifest_id,
                counts.record_count == r.len(),
                counts.exploratory_point_method == false,
                counts.internal_point_count == count_where(
                    r.take(i as int),
                    record_with_method(RepresentativePointMethod::InternalPoint),
                ),
                counts.population_center_count == count_where(
                    r.take(i as int),
                    record_with_method(RepresentativePointMethod::PopulationCenter),
                ),
                counts.geometry_centroid_count == count_where(
                    r.take(i as int),
                    record_with_method(RepresentativePointMethod::GeometryCentroid),
                ),
                counts.source_provided_count == count_where(
                    r.take(i as int),
                    record_with_method(RepresentativePointMethod::SourceProvided),
                ),
                counts.imported_count == count_where(
                    r.take(i as int),
                    record_with_method(RepresentativePointMethod::Imported),
                ),
                counts.caveated_record_count == count_where(r.take(i as int), record_has_caveats()),
                counts.caveat_count == sum_of(r.take(i as int), record_caveat_count()),
            decreases r.len() - i,
        {
            proof {
                lemma_prefix_step(r, i as int);
                lemma_count_bound(r.take(i as int), record_with_method(r[i as int].point.method));
                lemma_count_bound(r.take(i as int), record_has_caveats());
                lemma_sum_prefix(r, record_caveat_count(), i as int + 1);
            }
            let record = &self.records[i];
            if let Err(e) = record.validate(manifest) {
                assert(outcomes[i as int] == Some(e));
                return Err(e);
            }
            assert(outcomes[i as int] is None);
            match record.point.method {
                RepresentativePointMethod::InternalPoint => counts.internal_point_count =
                    counts.internal_point_count + 1,
                RepresentativePointMethod::PopulationCenter => counts.population_center_count =
                    counts.population_center_count + 1,
                RepresentativePointMethod::GeometryCentroid => counts.geometry_centroid_count =
                    counts.geometry_centroid_count + 1,
                RepresentativePointMethod::SourceProvided => counts.source_provided_count =
                    counts.source_provided_count + 1,
                RepresentativePointMethod::Imported => counts.imported_count = counts.imported_count
                    + 1,
            }
            if record.caveats.len() > 0 {
                counts.caveated_record_count = counts.caveated_record_count + 1;
                counts.caveat_count = counts.caveat_count + record.caveats.len();
            }
            i = i + 1;
        }
        proof {
            lemma_take_all(r);
        }
        counts.exploratory_point_method = counts.internal_point_count > 0
            || counts.geometry_centroid_count > 0;
        Ok(counts)
    }
}

} // verus!
