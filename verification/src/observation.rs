use vstd::prelude::*;

verus! {

/// Unit of a reported visibility distance.
///
/// Only statute miles are in scope for classification; any other unit
/// causes the observation to be rejected.
#[derive(Clone, Copy, Debug, PartialEq, Eq, Structural)]
pub enum DistanceUnit {
    StatuteMiles,
    Metres,
}

/// A reported visibility: a distance given in hundredths of `unit`.
///
/// Hundredths keep the statute-mile thresholds (1.00, 3.00 and 5.00 sm)
/// exact in integer arithmetic.
#[derive(Clone, Copy, Debug, PartialEq, Eq, Structural)]
pub struct Visibility {
    pub unit: DistanceUnit,
    /// Distance in hundredths of `unit` (for example 250 for 2.5 sm).
    pub hundredths: u32,
}

/// Cloud coverage of one reported layer.
#[derive(Clone, Copy, Debug, PartialEq, Eq, Structural)]
pub enum CloudCover {
    Few,
    Scattered,
    Broken,
    Overcast,
}

/// One cloud layer: its coverage and, when reported, its altitude in
/// hundreds of feet above ground.
#[derive(Clone, Copy, Debug)]
pub struct CloudLayer {
    pub cover: CloudCover,
    /// Altitude in hundreds of feet, absent when the report leaves it out.
    pub altitude: Option<u32>,
}

/// The subset of a METAR that classification consumes: an optional
/// visibility and the ordered sequence of cloud layers.
///
/// A missing visibility is a hard failure for classification; an empty
/// layer list is valid and means clear skies.
#[derive(Clone, Debug)]
pub struct Observation {
    pub visibility: Option<Visibility>,
    pub layers: Vec<CloudLayer>,
}

} // verus!
