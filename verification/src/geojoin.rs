use vstd::prelude::*;

use crate::checks::{first_error, first_error_from};
use crate::errors::ZonePlanError;
use crate::text::{insert_sorted, list_contains, same_text, strictly_increasing, views};
use crate::zones::GeometryJoinUnitStatus;

verus! {

/// Errors raised while joining boundary features to plan units.
#[derive(Debug, Clone, PartialEq, Eq)]
pub enum GeometryJoinError {
    Parse(String),
    InvalidRootType { kind: String },
    MissingGeometry { unit_id: String },
    DuplicateFeatureUnitId { unit_id: String },
    InvalidPlan(ZonePlanError),
    MissingRequiredUnits { unit_ids: Vec<String> },
}

/// What joining reads of one boundary feature: the unit id held by its id
/// property and by its own id (each present when it is a non-empty string
/// or a number, written as text), and the type of its geometry, when it
/// has one.
#[derive(Debug, Clone, PartialEq, Eq)]
pub struct GeoFeature {
    pub property_id: Option<String>,
    pub feature_id: Option<String>,
    pub geometry_type: Option<String>,
}

/// How features join to units: the feature joined to each unit, if any,
/// the counts and ids of matched and unmatched units, the feature unit ids
/// that no unit has, and a status per unit.
#[derive(Debug, Clone, PartialEq, Eq)]
pub struct GeometryJoinPlan {
    pub feature_for_unit: Vec<Option<usize>>,
    pub matched_unit_count: usize,
    pub unmatched_unit_ids: Vec<String>,
    pub unused_feature_unit_ids: Vec<String>,
    pub unit_statuses: Vec<GeometryJoinUnitStatus>,
}

/// The unit a feature names: its id property, else its own id.
pub open spec fn feature_unit(f: GeoFeature) -> Option<String> {
    match f.property_id {
        Some(p) => Some(p),
        None => f.feature_id,
    }
}

/// Whether a feature names the unit `id`.
pub open spec fn names_unit(f: GeoFeature, id: Seq<char>) -> bool {
    feature_unit(f) matches Some(u) && u@ == id
}

/// Whether some feature before position `k` names the unit `id`.
pub open spec fn named_before(features: Seq<GeoFeature>, k: int, id: Seq<char>) -> bool {
    exists|m: int| 0 <= m < k && #[trigger] names_unit(features[m], id)
}

/// What reading feature `k` reports, if anything: a named unit without
/// geometry, then a unit named by an earlier feature.
pub open spec fn feature_outcome(features: Seq<GeoFeature>, k: int) -> Option<GeometryJoinError> {
    match feature_unit(features[k]) {
        None => None,
        Some(u) => if features[k].geometry_type is None {
            Some(GeometryJoinError::MissingGeometry { unit_id: u })
        } else if named_before(features, k, u@) {
            Some(GeometryJoinError::DuplicateFeatureUnitId { unit_id: u })
        } else {
            None
        },
    }
}

/// The outcome of reading the features in order.
pub open spec fn features_check(features: Seq<GeoFeature>) -> Result<(), GeometryJoinError> {
    first_error(Seq::new(features.len(), |k: int| feature_outcome(features, k)))
}

/// Whether unit `i` takes a feature: some feature names its id, and no
/// earlier unit with the same id took that feature first.
pub open spec fn unit_joins(features: Seq<GeoFeature>, unit_ids: Seq<String>, i: int) -> bool {
    named_before(features, features.len() as int, unit_ids[i]@) && !views(unit_ids.take(i)).contains(
        unit_ids[i]@,
    )
}

/// Units that take a feature, by position.
pub open spec fn joining_positions(features: Seq<GeoFeature>, unit_ids: Seq<String>) -> spec_fn(
    int,
) -> bool {
    |i: int| unit_joins(features, unit_ids, i)
}

/// The ids of the units, among the first `n`, that take no feature, in order.
pub open spec fn unmatched_ids(features: Seq<GeoFeature>, unit_ids: Seq<String>, n: int) -> Seq<
    Seq<char>,
>
    decreases n,
{
    if n <= 0 {
        seq![]
    } else if unit_joins(features, unit_ids, n - 1) {
        unmatched_ids(features, unit_ids, n - 1)
    } else {
        unmatched_ids(features, unit_ids, n - 1).push(unit_ids[n - 1]@)
    }
}

/// The join of valid features to the units with the given ids.
pub open spec fn join_spec(features: Seq<GeoFeature>, unit_ids: Seq<String>, plan: GeometryJoinPlan) -> bool {
    let n = unit_ids.len();
    &&& plan.feature_for_unit@.len() == n
    &&& plan.unit_statuses@.len() == n
    &&& forall|i: int|
        0 <= i < n ==> {
            let status = #[trigger] plan.unit_statuses@[i];
            &&& status.unit_id == unit_ids[i]
            &&& status.matched == unit_joins(features, unit_ids, i)
            &&& match plan.feature_for_unit@[i] {
                Some(k) => {
                    &&& unit_joins(features, unit_ids, i)
                    &&& k < features.len()
                    &&& feature_unit(features[k as int]) matches Some(u) && u@ == unit_ids[i]@
                    &&& status.geometry_type == features[k as int].geometry_type
                },
                None => !unit_joins(features, unit_ids, i) && status.geometry_type is None,
            }
        }
    &&& plan.matched_unit_count == n - unmatched_ids(features, unit_ids, n as int).len()
    &&& views(plan.unmatched_unit_ids@) == unmatched_ids(features, unit_ids, n as int)
    &&& strictly_increasing(views(plan.unused_feature_unit_ids@))
    &&& forall|x: Seq<char>|
        #[trigger] views(plan.unused_feature_unit_ids@).contains(x) <==> (named_before(
            features,
            features.len() as int,
            x,
        ) && !views(unit_ids).contains(x))
}

fn feature_unit_of(f: &GeoFeature) -> (u: Option<String>)
    ensures
        u == feature_unit(*f),
{
    match &f.property_id {
        Some(p) => Some(p.clone()),
        None => match &f.feature_id {
            Some(i) => Some(i.clone()),
            None => None,
        },
    }
}

fn check_features(features: &Vec<GeoFeature>) -> (r: Result<(Vec<String>, Vec<usize>), GeometryJoinError>)
    ensures
        r is Err <==> features_check(features@) is Err,
        r matches Err(e) ==> features_check(features@) == Err::<(), GeometryJoinError>(e),
        r matches Ok((names, at)) ==> {
            &&& names@.len() == at@.len()
            &&& forall|q: int|
                0 <= q < names@.len() ==> #[trigger] at@[q] < features@.len() && feature_unit(
                    features@[at@[q] as int],
                ) == Some(names@[q]) && features@[at@[q] as int].geometry_type is Some
            &&& forall|x: Seq<char>| #[trigger] views(names@).contains(x) <==> named_before(
                features@,
                features@.len() as int,
                x,
            )
        },
{
    let ghost outcomes = Seq::new(features@.len(), |k: int| feature_outcome(features@, k));
    let mut names: Vec<String> = Vec::new();
    let mut at: Vec<usize> = Vec::new();
    let mut k: usize = 0;
    while k < features.len()
        invariant
            k <= features@.len(),
            outcomes == Seq::new(features@.len(), |m: int| feature_outcome(features@, m)),
            first_error(outcomes) == first_error_from(outcomes, k as int),
            names@.len() == at@.len(),
            forall|q: int|
                0 <= q < names@.len() ==> #[trigger] at@[q] < k && feature_unit(
                    features@[at@[q] as int],
                ) == Some(names@[q]) && features@[at@[q] as int].geometry_type is Some,
            forall|x: Seq<char>| #[trigger] views(names@).contains(x) <==> named_before(
                features@,
                k as int,
                x,
            ),
        decreases features@.len() - k,
    {
        let ghost before = views(names@);
        let named = feature_unit_of(&features[k]);
        match named {
            None => {
                assert(outcomes[k as int] is None);
                assert forall|x: Seq<char>| #[trigger] views(names@).contains(x) <==> named_before(
                    features@,
                    k + 1,
                    x,
                ) by {
                    if named_before(features@, k + 1, x) {
                        let m = choose|m: int| 0 <= m < k + 1 && #[trigger] names_unit(features@[m], x);
                        assert(m != k);
                        assert(named_before(features@, k as int, x));
                    }
                }
            },
            Some(u) => {
                if features[k].geometry_type.is_none() {
                    let e = GeometryJoinError::MissingGeometry { unit_id: u };
                    assert(outcomes[k as int] == Some(e));
                    return Err(e);
                }
                if list_contains(&names, u.as_str()) {
                    assert(named_before(features@, k as int, u@));
                    let e = GeometryJoinError::DuplicateFeatureUnitId { unit_id: u };
                    assert(outcomes[k as int] == Some(e));
                    return Err(e);
                }
                assert(outcomes[k as int] is None);
                let ghost id = u@;
                names.push(u);
                at.push(k);
                assert(views(names@) =~= before.push(id));
                assert forall|x: Seq<char>| #[trigger] views(names@).contains(x) <==> named_before(
                    features@,
                    k + 1,
                    x,
                ) by {
                    if named_before(features@, k + 1, x) {
                        let m = choose|m: int| 0 <= m < k + 1 && #[trigger] names_unit(features@[m], x);
                        if m < k {
                            assert(named_before(features@, k as int, x));
                            assert(before.contains(x));
                            let p = choose|p: int| 0 <= p < before.len() && before[p] == x;
                            assert(views(names@)[p] == x);
                        } else {
                            assert(views(names@)[before.len() as int] == x);
                        }
                    }
                    if views(names@).contains(x) {
                        let p = choose|p: int| 0 <= p < views(names@).len() && views(names@)[p] == x;
                        if p < before.len() {
                            assert(before[p] == x);
                            assert(before.contains(x));
                            assert(named_before(features@, k as int, x));
                            let m = choose|m: int| 0 <= m < k && #[trigger] names_unit(features@[m], x);
                            assert(0 <= m < k + 1 && names_unit(features@[m], x));
                        } else {
                            assert(x == id);
                            assert(names_unit(features@[k as int], x));
                        }
                    }
                }
            },
        }
        k = k + 1;
    }
    Ok((names, at))
}


fn find_text(list: &Vec<String>, text: &str) -> (k: usize)
    ensures
        k <= list@.len(),
        k < list@.len() ==> list@[k as int]@ == text@,
        k == list@.len() ==> !views(list@).contains(text@),
{
    let mut k: usize = 0;
    while k < list.len()
        invariant
            k <= list@.len(),
            forall|m: int| 0 <= m < k ==> list@[m]@ != text@,
        decreases list@.len() - k,
    {
        if same_text(list[k].as_str(), text) {
            return k;
        }
        k = k + 1;
    }
    proof {
        if views(list@).contains(text@) {
            let m = choose|m: int| 0 <= m < views(list@).len() && views(list@)[m] == text@;
            assert(list@[m]@ == text@);
        }
    }
    k
}

fn copy_optional_text(o: &Option<String>) -> (r: Option<String>)
    ensures
        r == *o,
{
    match o {
        Some(t) => Some(t.clone()),
        None => None,
    }
}

/// Plans the join of boundary features to the units with the given ids:
/// the collection must be a `FeatureCollection`; every feature that names
/// a unit must have a geometry and name a unit no earlier feature named;
/// each unit then takes the feature that names it, unless an earlier unit
/// with the same id took it; and, when every unit is required, no unit
/// may go without a feature.
pub fn plan_geometry_join(
    kind: &String,
    features: &Vec<GeoFeature>,
    unit_ids: &Vec<String>,
    require_all_units: bool,
) -> (r: Result<GeometryJoinPlan, GeometryJoinError>)
    ensures
        kind@ != "FeatureCollection"@ ==> r == Err::<GeometryJoinPlan, GeometryJoinError>(
            GeometryJoinError::InvalidRootType { kind: *kind },
        ),
        kind@ == "FeatureCollection"@ ==> match features_check(features@) {
            Err(e) => r == Err::<GeometryJoinPlan, GeometryJoinError>(e),
            Ok(_) => if require_all_units && unmatched_ids(
                features@,
                unit_ids@,
                unit_ids@.len() as int,
            ).len() > 0 {
                r matches Err(GeometryJoinError::MissingRequiredUnits { unit_ids: missing })
                    && views(missing@) == unmatched_ids(features@, unit_ids@, unit_ids@.len() as int)
            } else {
                r matches Ok(plan) && join_spec(features@, unit_ids@, plan)
            },
        },
{
    if !same_text(kind.as_str(), "FeatureCollection") {
        return Err(GeometryJoinError::InvalidRootType { kind: kind.clone() });
    }
    let (names, at) = check_features(features)?;
    let ghost f = features@;
    let ghost ids = unit_ids@;
    let mut feature_for_unit: Vec<Option<usize>> = Vec::new();
    let mut statuses: Vec<GeometryJoinUnitStatus> = Vec::new();
    let mut unmatched: Vec<String> = Vec::new();
    let mut matched: usize = 0;
    let mut seen: Vec<String> = Vec::new();
    let mut i: usize = 0;
    while i < unit_ids.len()
        invariant
            f == features@,
            ids == unit_ids@,
            i <= ids.len(),
            names@.len() == at@.len(),
            forall|q: int|
                0 <= q < names@.len() ==> #[trigger] at@[q] < f.len() && feature_unit(
                    f[at@[q] as int],
                ) == Some(names@[q]) && f[at@[q] as int].geometry_type is Some,
            forall|x: Seq<char>| #[trigger] views(names@).contains(x) <==> named_before(
                f,
                f.len() as int,
                x,
            ),
            seen@ == ids.take(i as int),
            feature_for_unit@.len() == i,
            statuses@.len() == i,
            forall|j: int|
                0 <= j < i ==> {
                    let status = #[trigger] statuses@[j];
                    &&& status.unit_id == ids[j]
                    &&& status.matched == unit_joins(f, ids, j)
                    &&& match feature_for_unit@[j] {
                        Some(k) => {
                            &&& unit_joins(f, ids, j)
                            &&& k < f.len()
                            &&& feature_unit(f[k as int]) matches Some(u) && u@ == ids[j]@
                            &&& status.geometry_type == f[k as int].geometry_type
                        },
                        None => !unit_joins(f, ids, j) && status.geometry_type is None,
                    }
                },
            views(unmatched@) == unmatched_ids(f, ids, i as int),
            matched + unmatched_ids(f, ids, i as int).len() == i,
        decreases ids.len() - i,
    {
        let id = &unit_ids[i];
        let p = find_text(&names, id.as_str());
        let earlier = list_contains(&seen, id.as_str());
        proof {
            assert(views(seen@) == views(ids.take(i as int)));
        }
        if p < names.len() && !earlier {
            let k = at[p];
            proof {
                assert(views(names@)[p as int] == id@);
                assert(views(names@).contains(id@));
                assert(unit_joins(f, ids, i as int));
            }
            feature_for_unit.push(Some(k));
            statuses.push(
                GeometryJoinUnitStatus {
                    unit_id: id.clone(),
                    matched: true,
                    geometry_type: copy_optional_text(&features[k].geometry_type),
                },
            );
            matched = matched + 1;
        } else {
            proof {
                assert(!unit_joins(f, ids, i as int));
            }
            feature_for_unit.push(None);
            statuses.push(GeometryJoinUnitStatus { unit_id: id.clone(), matched: false, geometry_type: None });
            let ghost before = unmatched@;
            unmatched.push(id.clone());
            assert(views(unmatched@) =~= views(before).push(ids[i as int]@));
        }
        seen.push(id.clone());
        assert(seen@ =~= ids.take(i + 1));
        i = i + 1;
    }
    assert(ids.take(ids.len() as int) =~= ids);
    if require_all_units && unmatched.len() > 0 {
        return Err(GeometryJoinError::MissingRequiredUnits { unit_ids: unmatched });
    }
    let mut unused: Vec<String> = Vec::new();
    let mut q: usize = 0;
    while q < names.len()
        invariant
            q <= names@.len(),
            strictly_increasing(views(unused@)),
            forall|x: Seq<char>| #[trigger] views(unused@).contains(x) <==> (views(
                names@.take(q as int),
            ).contains(x) && !views(unit_ids@).contains(x)),
        decreases names@.len() - q,
    {
        let ghost prefix = views(names@.take(q as int));
        let ghost next = views(names@.take(q + 1));
        assert(next =~= prefix.push(names@[q as int]@));
        proof {
            assert forall|x: Seq<char>| next.contains(x) <==> (prefix.contains(x) || x
                == names@[q as int]@) by {
                if next.contains(x) {
                    let m = choose|m: int| 0 <= m < next.len() && next[m] == x;
                    if m < prefix.len() {
                        assert(prefix[m] == x);
                    }
                }
                if prefix.contains(x) {
                    let m = choose|m: int| 0 <= m < prefix.len() && prefix[m] == x;
                    assert(next[m] == x);
                }
                if x == names@[q as int]@ {
                    assert(next[prefix.len() as int] == x);
                }
            }
        }
        if !list_contains(unit_ids, names[q].as_str()) {
            insert_sorted(&mut unused, names[q].clone());
        }
        q = q + 1;
    }
    assert(names@.take(names@.len() as int) =~= names@);
    Ok(
        GeometryJoinPlan {
            feature_for_unit,
            matched_unit_count: matched,
            unmatched_unit_ids: unmatched,
            unused_feature_unit_ids: unused,
            unit_statuses: statuses,
        },
    )
}

} // verus!
