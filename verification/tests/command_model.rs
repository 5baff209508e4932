use atc_capture::aviation_command::{
    AviationCommandGroup, AviationCommandPart, CommunicationEntity, DirectionDegrees, Feet,
    FrequencyThousands, Heading, TurnDegrees,
};
use atc_capture::errors::WhisperAtcError;

#[test]
fn direction_degrees_accepts_valid_range() {
    assert_eq!(*DirectionDegrees::new(1).unwrap().direction(), 1);
    assert_eq!(*DirectionDegrees::new(180).unwrap().direction(), 180);
    assert_eq!(*DirectionDegrees::new(359).unwrap().direction(), 359);
}

#[test]
fn direction_degrees_normalizes_360_to_0() {
    assert_eq!(*DirectionDegrees::new(360).unwrap().direction(), 0);
}

#[test]
fn direction_degrees_rejects_out_of_range() {
    assert_eq!(
        DirectionDegrees::new(0),
        Err(WhisperAtcError::InvalidDirection(0))
    );
    assert_eq!(
        DirectionDegrees::new(361),
        Err(WhisperAtcError::InvalidDirection(361))
    );
    assert_eq!(
        DirectionDegrees::new(1000),
        Err(WhisperAtcError::InvalidDirection(1000))
    );
}

#[test]
fn turn_degrees_accepts_valid_range() {
    assert_eq!(*TurnDegrees::new(0).unwrap().direction(), 0);
    assert_eq!(*TurnDegrees::new(90).unwrap().direction(), 90);
    assert_eq!(*TurnDegrees::new(179).unwrap().direction(), 179);
}

#[test]
fn turn_degrees_rejects_180_and_above() {
    assert_eq!(TurnDegrees::new(180), Err(WhisperAtcError::InvalidTurn(180)));
    assert_eq!(TurnDegrees::new(360), Err(WhisperAtcError::InvalidTurn(360)));
}

#[test]
fn feet_accepts_valid_range() {
    assert_eq!(*Feet::new(-1355).unwrap().altitude(), -1355);
    assert_eq!(*Feet::new(0).unwrap().altitude(), 0);
    assert_eq!(*Feet::new(99999).unwrap().altitude(), 99999);
}

#[test]
fn feet_rejects_just_outside_both_ends() {
    assert_eq!(Feet::new(-1356), Err(WhisperAtcError::InvalidAltitude(-1356)));
    assert_eq!(Feet::new(100000), Err(WhisperAtcError::InvalidAltitude(100000)));
}

#[test]
fn frequency_thousands_never_fails() {
    assert_eq!(*FrequencyThousands::new(0).unwrap().frequency(), 0);
    assert_eq!(*FrequencyThousands::new(121500).unwrap().frequency(), 121500);
    assert_eq!(
        *FrequencyThousands::new(u32::MAX).unwrap().frequency(),
        u32::MAX
    );
}

#[test]
fn command_group_round_trip() {
    let group = AviationCommandGroup {
        target: Some(CommunicationEntity::Aircraft {
            full_name: String::from("N12345"),
            airline: None,
        }),
        parts: vec![
            AviationCommandPart::FlyHeading(Heading::DirectionDegrees(
                DirectionDegrees::new(270).unwrap(),
            )),
            AviationCommandPart::ChangeAltitude(Feet::new(5000).unwrap()),
        ],
    };
    let copy = group.clone();

    assert!(matches!(
        &copy.target,
        Some(CommunicationEntity::Aircraft { full_name, airline })
            if full_name == "N12345" && airline.is_none()
    ));
    assert_eq!(copy.parts.len(), 2);
    assert!(matches!(
        &copy.parts[0],
        AviationCommandPart::FlyHeading(Heading::DirectionDegrees(d)) if *d.direction() == 270
    ));
    assert!(matches!(
        &copy.parts[1],
        AviationCommandPart::ChangeAltitude(f) if *f.altitude() == 5000
    ));

    // The original is unchanged: the clone shares nothing with it.
    assert_eq!(group.parts.len(), 2);
    assert!(matches!(
        &group.parts[0],
        AviationCommandPart::FlyHeading(Heading::DirectionDegrees(d)) if *d.direction() == 270
    ));
}

#[test]
fn command_part_clone_preserves_strings() {
    let part = AviationCommandPart::ContactFrequency {
        frequency: FrequencyThousands::new(118700).unwrap(),
        station: Some(String::from("Tower")),
    };
    let copy = part.clone();
    assert!(matches!(
        &copy,
        AviationCommandPart::ContactFrequency { frequency, station }
            if *frequency.frequency() == 118700
                && station.as_deref() == Some("Tower")
    ));

    let direct = AviationCommandPart::ProceedDirect(String::from("BOMBI"));
    assert!(matches!(
        &direct.clone(),
        AviationCommandPart::ProceedDirect(w) if w == "BOMBI"
    ));
}
