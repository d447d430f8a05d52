use metar_map::classify::{classify, ClassifyError};
use metar_map::color::ColorCode;
use metar_map::frame::encode_assignment;
use metar_map::observation::{CloudCover, CloudLayer, DistanceUnit, Observation, Visibility};
use metar_map::rules::FlightRules;
use metar_map::tick::tick_frames;

fn sm(hundredths: u32) -> Visibility {
    Visibility { unit: DistanceUnit::StatuteMiles, hundredths }
}

fn assignment(obs: &Observation, led: u16) -> Result<Vec<u8>, ClassifyError> {
    let rules = classify(obs)?;
    Ok(encode_assignment(led, ColorCode::from(rules)))
}

#[test]
fn ksfo_clear_is_vfr_green() {
    let obs = Observation { visibility: Some(sm(1000)), layers: vec![] };
    assert_eq!(classify(&obs), Ok(FlightRules::Vfr));
    assert_eq!(assignment(&obs, 1), Ok(b"1g".to_vec()));
}

#[test]
fn ksfo_overcast_at_200_ft_is_low_ifr_purple() {
    let obs = Observation {
        visibility: Some(sm(1000)),
        layers: vec![CloudLayer { cover: CloudCover::Overcast, altitude: Some(2) }],
    };
    assert_eq!(classify(&obs), Ok(FlightRules::LowIfr));
    assert_eq!(assignment(&obs, 1), Ok(b"1p".to_vec()));
}

#[test]
fn koak_low_visibility_scattered_is_ifr_red() {
    let obs = Observation {
        visibility: Some(sm(250)),
        layers: vec![CloudLayer { cover: CloudCover::Scattered, altitude: Some(50) }],
    };
    assert_eq!(classify(&obs), Ok(FlightRules::Ifr));
    assert_eq!(assignment(&obs, 1), Ok(b"1r".to_vec()));
}

#[test]
fn khaf_five_miles_broken_at_2000_ft_is_marginal_vfr_blue() {
    let obs = Observation {
        visibility: Some(sm(500)),
        layers: vec![CloudLayer { cover: CloudCover::Broken, altitude: Some(20) }],
    };
    assert_eq!(classify(&obs), Ok(FlightRules::MarginalVfr));
    assert_eq!(assignment(&obs, 3), Ok(b"3b".to_vec()));
}

#[test]
fn ksql_unknown_visibility_writes_nothing() {
    let obs = Observation { visibility: None, layers: vec![] };
    assert_eq!(assignment(&obs, 4), Err(ClassifyError::VisibilityMissing));
}

#[test]
fn ksjc_visibility_in_metres_writes_nothing() {
    let obs = Observation {
        visibility: Some(Visibility { unit: DistanceUnit::Metres, hundredths: 800000 }),
        layers: vec![],
    };
    assert_eq!(assignment(&obs, 5), Err(ClassifyError::UnsupportedUnit));
}

#[test]
fn a_failing_airport_does_not_disturb_the_tick() {
    let results = vec![
        (1, Observation { visibility: Some(sm(1000)), layers: vec![] }),
        (4, Observation { visibility: None, layers: vec![] }),
        (
            3,
            Observation {
                visibility: Some(sm(500)),
                layers: vec![CloudLayer { cover: CloudCover::Broken, altitude: Some(20) }],
            },
        ),
    ];
    let frames = tick_frames(&results);
    assert_eq!(frames, vec![b"1g".to_vec(), b"3b".to_vec()]);
}
