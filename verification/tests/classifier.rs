use metar_map::classify::{ceiling_rules, classify, visibility_rules, ClassifyError};
use metar_map::observation::{CloudCover, CloudLayer, DistanceUnit, Observation, Visibility};
use metar_map::rules::FlightRules;

fn sm(hundredths: u32) -> Visibility {
    Visibility { unit: DistanceUnit::StatuteMiles, hundredths }
}

fn layer(cover: CloudCover, altitude: Option<u32>) -> CloudLayer {
    CloudLayer { cover, altitude }
}

#[test]
fn visibility_boundaries() {
    assert_eq!(visibility_rules(&sm(0)), Ok(FlightRules::LowIfr));
    assert_eq!(visibility_rules(&sm(99)), Ok(FlightRules::LowIfr));
    assert_eq!(visibility_rules(&sm(100)), Ok(FlightRules::Ifr));
    assert_eq!(visibility_rules(&sm(299)), Ok(FlightRules::Ifr));
    assert_eq!(visibility_rules(&sm(300)), Ok(FlightRules::MarginalVfr));
    assert_eq!(visibility_rules(&sm(500)), Ok(FlightRules::MarginalVfr));
    assert_eq!(visibility_rules(&sm(501)), Ok(FlightRules::Vfr));
    assert_eq!(visibility_rules(&sm(1000)), Ok(FlightRules::Vfr));
}

#[test]
fn non_statute_mile_unit_is_rejected() {
    assert_eq!(
        visibility_rules(&Visibility { unit: DistanceUnit::Metres, hundredths: 900000 }),
        Err(ClassifyError::UnsupportedUnit)
    );
    assert_eq!(
        visibility_rules(&Visibility { unit: DistanceUnit::Metres, hundredths: 0 }),
        Err(ClassifyError::UnsupportedUnit)
    );
}

#[test]
fn ceiling_ignores_few_scattered_and_unknown_altitude() {
    let layers = vec![
        layer(CloudCover::Few, Some(1)),
        layer(CloudCover::Scattered, Some(2)),
        layer(CloudCover::Broken, None),
        layer(CloudCover::Overcast, None),
        layer(CloudCover::Broken, Some(20)),
    ];
    assert_eq!(ceiling_rules(&layers), FlightRules::MarginalVfr);
}

#[test]
fn ceiling_of_empty_and_of_nonqualifying_layers_is_vfr() {
    assert_eq!(ceiling_rules(&Vec::new()), FlightRules::Vfr);
    let layers = vec![
        layer(CloudCover::Few, Some(1)),
        layer(CloudCover::Scattered, Some(2)),
        layer(CloudCover::Broken, None),
    ];
    assert_eq!(ceiling_rules(&layers), FlightRules::Vfr);
}

#[test]
fn ceiling_boundaries() {
    let one = |alt: u32| vec![layer(CloudCover::Overcast, Some(alt))];
    assert_eq!(ceiling_rules(&one(4)), FlightRules::LowIfr);
    assert_eq!(ceiling_rules(&one(5)), FlightRules::Ifr);
    assert_eq!(ceiling_rules(&one(9)), FlightRules::Ifr);
    assert_eq!(ceiling_rules(&one(10)), FlightRules::MarginalVfr);
    assert_eq!(ceiling_rules(&one(30)), FlightRules::MarginalVfr);
    assert_eq!(ceiling_rules(&one(31)), FlightRules::Vfr);
}

#[test]
fn ceiling_takes_the_lowest_qualifying_layer() {
    let layers = vec![
        layer(CloudCover::Broken, Some(40)),
        layer(CloudCover::Overcast, Some(7)),
        layer(CloudCover::Broken, Some(25)),
    ];
    assert_eq!(ceiling_rules(&layers), FlightRules::Ifr);
}

#[test]
fn combined_takes_the_worst_of_the_two() {
    // Visibility says Vfr, ceiling says LowIfr: the worst wins.
    let obs = Observation {
        visibility: Some(sm(1000)),
        layers: vec![layer(CloudCover::Overcast, Some(2))],
    };
    assert_eq!(classify(&obs), Ok(FlightRules::LowIfr));
    // Visibility says Ifr, ceiling says Vfr: still the worst.
    let obs = Observation {
        visibility: Some(sm(250)),
        layers: vec![layer(CloudCover::Scattered, Some(50))],
    };
    assert_eq!(classify(&obs), Ok(FlightRules::Ifr));
}

#[test]
fn missing_visibility_is_rejected() {
    let obs = Observation {
        visibility: None,
        layers: vec![layer(CloudCover::Overcast, Some(2))],
    };
    assert_eq!(classify(&obs), Err(ClassifyError::VisibilityMissing));
}
