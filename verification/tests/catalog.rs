use beacn_mic::messages::led::LEDParameter;
use beacn_mic::messages::{BeacnParameter, GetId, ValueKind, LED_GROUP};

#[test]
fn led_parameters_have_their_child_ids() {
    assert_eq!(LEDParameter::Mode.get_id(), 0);
    assert_eq!(LEDParameter::Colour1.get_id(), 1);
    assert_eq!(LEDParameter::Colour2.get_id(), 2);
    assert_eq!(LEDParameter::Speed.get_id(), 4);
    assert_eq!(LEDParameter::Brightness.get_id(), 5);
    assert_eq!(LEDParameter::MeterSource.get_id(), 6);
    assert_eq!(LEDParameter::MeterSensitivity.get_id(), 7);
    assert_eq!(LEDParameter::MuteMode.get_id(), 8);
    assert_eq!(LEDParameter::MuteColour.get_id(), 9);
    assert_eq!(LEDParameter::SuspendMode.get_id(), 11);
    assert_eq!(LEDParameter::SuspendBrightness.get_id(), 12);
}

#[test]
fn led_group_is_one() {
    assert_eq!(LED_GROUP, 0x01);
    for param in LEDParameter::all() {
        let id: u8 = BeacnParameter::LED(param).get_id();
        assert_eq!(id, 0x01);
    }
}

#[test]
fn child_id_is_that_of_the_led_parameter() {
    for param in LEDParameter::all() {
        assert_eq!(BeacnParameter::LED(param).get_child_id(), param.get_id());
    }
    assert_eq!(BeacnParameter::LED(LEDParameter::SuspendBrightness).get_child_id(), 12);
}

#[test]
fn all_lists_every_parameter_in_order() {
    assert_eq!(
        LEDParameter::all(),
        vec![
            LEDParameter::Mode,
            LEDParameter::Colour1,
            LEDParameter::Colour2,
            LEDParameter::Speed,
            LEDParameter::Brightness,
            LEDParameter::MeterSource,
            LEDParameter::MeterSensitivity,
            LEDParameter::MuteMode,
            LEDParameter::MuteColour,
            LEDParameter::SuspendMode,
            LEDParameter::SuspendBrightness,
        ]
    );
    assert_eq!(LEDParameter::all(), LEDParameter::all());
}

#[test]
fn child_ids_are_distinct_and_skip_the_reserved() {
    let ids: Vec<u16> = LEDParameter::all().iter().map(|p| p.get_id()).collect();
    assert_eq!(ids, vec![0, 1, 2, 4, 5, 6, 7, 8, 9, 11, 12]);
    assert!(!ids.contains(&3));
    assert!(!ids.contains(&10));
}

#[test]
fn parameters_carry_their_types() {
    assert_eq!(LEDParameter::Mode.kind(), ValueKind::Unsigned);
    assert_eq!(LEDParameter::Colour1.kind(), ValueKind::Colour);
    assert_eq!(LEDParameter::Colour2.kind(), ValueKind::Colour);
    assert_eq!(LEDParameter::Speed.kind(), ValueKind::Signed);
    assert_eq!(LEDParameter::Brightness.kind(), ValueKind::Signed);
    assert_eq!(LEDParameter::MeterSource.kind(), ValueKind::Unsigned);
    assert_eq!(LEDParameter::MeterSensitivity.kind(), ValueKind::Float);
    assert_eq!(LEDParameter::MuteMode.kind(), ValueKind::Unsigned);
    assert_eq!(LEDParameter::MuteColour.kind(), ValueKind::Colour);
    assert_eq!(LEDParameter::SuspendMode.kind(), ValueKind::Unsigned);
    assert_eq!(LEDParameter::SuspendBrightness.kind(), ValueKind::Unsigned);
}
