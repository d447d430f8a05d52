use vstd::prelude::*;

use crate::observation::{CloudCover, CloudLayer, DistanceUnit, Observation, Visibility};
use crate::rules::{worst, worst_spec, FlightRules};

verus! {

/// Why an observation cannot be classified.
#[derive(Clone, Copy, Debug, PartialEq, Eq, Structural)]
pub enum ClassifyError {
    /// The observation lacked visibility data.
    VisibilityMissing,
    /// The visibility was not reported in statute miles.
    UnsupportedUnit,
}

/// Category for a visibility of `hundredths` hundredths of a statute mile:
/// below 1 sm LowIfr, from 1 sm up to (excluding) 3 sm Ifr, from 3 sm up to
/// (including) 5 sm MarginalVfr, above 5 sm Vfr.
pub open spec fn vis_category(hundredths: u32) -> FlightRules {
    if hundredths < 100 {
        FlightRules::LowIfr
    } else if hundredths < 300 {
        FlightRules::Ifr
    } else if hundredths <= 500 {
        FlightRules::MarginalVfr
    } else {
        FlightRules::Vfr
    }
}

/// Whether a layer counts toward the ceiling: `Broken` or `Overcast`
/// coverage with a known altitude.
pub open spec fn qualifies(l: CloudLayer) -> bool {
    (l.cover == CloudCover::Broken || l.cover == CloudCover::Overcast) && l.altitude is Some
}

/// Lowest altitude, in hundreds of feet, among the qualifying layers;
/// `None` when no layer qualifies.
pub open spec fn min_ceiling(layers: Seq<CloudLayer>) -> Option<u32>
    decreases layers.len(),
{
    if layers.len() == 0 {
        None::<u32>
    } else {
        let rest = min_ceiling(layers.drop_last());
        let l = layers.last();
        if qualifies(l) {
            let a = l.altitude->Some_0;
            match rest {
                None => Some(a),
                Some(b) => if a <= b {
                    Some(a)
                } else {
                    Some(b)
                },
            }
        } else {
            rest
        }
    }
}

/// Category for a ceiling at `alt` hundreds of feet: below 500 ft LowIfr,
/// from 500 ft up to (excluding) 1000 ft Ifr, from 1000 ft up to (including)
/// 3000 ft MarginalVfr, above 3000 ft Vfr.
pub open spec fn alt_category(alt: u32) -> FlightRules {
    if alt < 5 {
        FlightRules::LowIfr
    } else if alt < 10 {
        FlightRules::Ifr
    } else if alt <= 30 {
        FlightRules::MarginalVfr
    } else {
        FlightRules::Vfr
    }
}

/// Category from the cloud layers alone: the category of the lowest
/// qualifying layer, or `Vfr` when no layer qualifies.
pub open spec fn ceiling_category(layers: Seq<CloudLayer>) -> FlightRules {
    match min_ceiling(layers) {
        None => FlightRules::Vfr,
        Some(a) => alt_category(a),
    }
}

/// Classification of a whole observation: the minimum of the visibility
/// and ceiling sub-classifications, or the error the visibility forces.
pub open spec fn classify_spec(obs: Observation) -> Result<FlightRules, ClassifyError> {
    match obs.visibility {
        None => Err(ClassifyError::VisibilityMissing),
        Some(v) => if v.unit != DistanceUnit::StatuteMiles {
            Err(ClassifyError::UnsupportedUnit)
        } else {
            Ok(worst_spec(vis_category(v.hundredths), ceiling_category(obs.layers@)))
        },
    }
}

/// Visibility sub-classifier: rejects any unit but statute miles, and
/// otherwise follows the visibility table.
pub fn visibility_rules(v: &Visibility) -> (r: Result<FlightRules, ClassifyError>)
    ensures
        v.unit == DistanceUnit::StatuteMiles ==> r == Ok::<FlightRules, ClassifyError>(
            vis_category(v.hundredths),
        ),
        v.unit != DistanceUnit::StatuteMiles ==> r == Err::<FlightRules, ClassifyError>(
            ClassifyError::UnsupportedUnit,
        ),
{
    if v.unit != DistanceUnit::StatuteMiles {
        return Err(ClassifyError::UnsupportedUnit);
    }
    if v.hundredths < 100 {
        Ok(FlightRules::LowIfr)
    } else if v.hundredths < 300 {
        Ok(FlightRules::Ifr)
    } else if v.hundredths <= 500 {
        Ok(FlightRules::MarginalVfr)
    } else {
        Ok(FlightRules::Vfr)
    }
}

/// Ceiling sub-classifier: scans the layers for the lowest qualifying
/// altitude and follows the ceiling table; `Vfr` when none qualifies.
pub fn ceiling_rules(layers: &Vec<CloudLayer>) -> (r: FlightRules)
    ensures
        r == ceiling_category(layers@),
{
    let mut lowest: Option<u32> = None;
    let n = layers.len();
    for i in 0..n
        invariant
            n == layers@.len(),
            lowest == min_ceiling(layers@.take(i as int)),
    {
        let l = layers[i];
        let is_ceiling_cover = match l.cover {
            CloudCover::Broken => true,
            CloudCover::Overcast => true,
            CloudCover::Few => false,
            CloudCover::Scattered => false,
        };
        if is_ceiling_cover {
            match l.altitude {
                Some(a) => {
                    lowest = match lowest {
                        None => Some(a),
                        Some(b) => if a <= b {
                            Some(a)
                        } else {
                            Some(b)
                        },
                    };
                },
                None => {},
            }
        }
        proof {
            assert(layers@.take(i + 1).drop_last() =~= layers@.take(i as int));
            assert(layers@.take(i + 1).last() == layers@[i as int]);
        }
    }
    proof {
        assert(layers@.take(n as int) =~= layers@);
    }
    match lowest {
        None => FlightRules::Vfr,
        Some(a) => {
            if a < 5 {
                FlightRules::LowIfr
            } else if a < 10 {
                FlightRules::Ifr
            } else if a <= 30 {
                FlightRules::MarginalVfr
            } else {
                FlightRules::Vfr
            }
        },
    }
}

/// Classifier: the minimum of the two sub-classifications under the total
/// order on `FlightRules`, or the error the visibility forces.
pub fn classify(obs: &Observation) -> (r: Result<FlightRules, ClassifyError>)
    ensures
        r == classify_spec(*obs),
{
    match &obs.visibility {
        None => Err(ClassifyError::VisibilityMissing),
        Some(v) => {
            let vr = match visibility_rules(v) {
                Ok(x) => x,
                Err(e) => {
                    return Err(e);
                },
            };
            let cr = ceiling_rules(&obs.layers);
            Ok(worst(vr, cr))
        },
    }
}

/// The ceiling sub-classifier ignores `Few` and `Scattered` layers and
/// layers without a known altitude: inserting such a layer anywhere leaves
/// the ceiling category unchanged.
pub proof fn lemma_ceiling_ignores_nonqualifying(layers: Seq<CloudLayer>, i: int, extra: CloudLayer)
    requires
        0 <= i <= layers.len(),
        !qualifies(extra),
    ensures
        min_ceiling(layers.insert(i, extra)) == min_ceiling(layers),
        ceiling_category(layers.insert(i, extra)) == ceiling_category(layers),
    decreases layers.len(),
{
    let s = layers.insert(i, extra);
    if i == layers.len() {
        assert(s.drop_last() =~= layers);
        assert(s.last() == extra);
    } else {
        assert(s.last() == layers.last());
        assert(s.drop_last() =~= layers.drop_last().insert(i, extra));
        lemma_ceiling_ignores_nonqualifying(layers.drop_last(), i, extra);
    }
}

/// An empty layer list, and a list in which no layer qualifies, both give
/// `Vfr` from the ceiling sub-classifier.
pub proof fn lemma_no_qualifying_layer_is_vfr(layers: Seq<CloudLayer>)
    requires
        forall|i: int| 0 <= i < layers.len() ==> !qualifies(layers[i]),
    ensures
        min_ceiling(layers) is None,
        ceiling_category(layers) == FlightRules::Vfr,
    decreases layers.len(),
{
    if layers.len() > 0 {
        assert(!qualifies(layers.last()));
        assert forall|i: int| 0 <= i < layers.drop_last().len() implies !qualifies(
            layers.drop_last()[i],
        ) by {
            assert(layers.drop_last()[i] == layers[i]);
        }
        lemma_no_qualifying_layer_is_vfr(layers.drop_last());
    }
}

/// When the visibility is present and in statute miles, the combined
/// classification equals the minimum of the visibility and ceiling
/// sub-classifications under the total order on `FlightRules`.
pub proof fn lemma_classify_is_worst(obs: Observation)
    requires
        obs.visibility is Some,
        obs.visibility->Some_0.unit == DistanceUnit::StatuteMiles,
    ensures
        classify_spec(obs) == Ok::<FlightRules, ClassifyError>(
            worst_spec(
                vis_category(obs.visibility->Some_0.hundredths),
                ceiling_category(obs.layers@),
            ),
        ),
{
}

/// A visibility in any unit but statute miles is always rejected with
/// `UnsupportedUnit`, whatever the layers say.
pub proof fn lemma_unsupported_unit(obs: Observation)
    requires
        obs.visibility is Some,
        obs.visibility->Some_0.unit != DistanceUnit::StatuteMiles,
    ensures
        classify_spec(obs) == Err::<FlightRules, ClassifyError>(ClassifyError::UnsupportedUnit),
{
}

} // verus!
