use bluecore::errors::BtError;
use bluecore::media::media_command_outcome;
use bluecore::media::native_to_percent;
use bluecore::media::percent_to_native;
use bluecore::media::volume_percent_answer;
use bluecore::sinks::validate_brightness;
use bluecore::sinks::validate_system_volume;

#[test]
fn full_scale_round_trip_is_ninety_nine() {
    // The documented lossy boundary: 100 -> 127 -> 99, not 100.
    let native = percent_to_native(100);
    assert_eq!(native, 127);
    assert_eq!(native_to_percent(native), 99);
}

#[test]
fn conversion_up_exact_values() {
    assert_eq!(percent_to_native(0), 0);
    assert_eq!(percent_to_native(1), 1);
    assert_eq!(percent_to_native(50), 63);
    assert_eq!(percent_to_native(79), 100);
    assert_eq!(percent_to_native(99), 125);
}

#[test]
fn conversion_down_exact_values() {
    assert_eq!(native_to_percent(0), 0);
    assert_eq!(native_to_percent(1), 0);
    assert_eq!(native_to_percent(63), 49);
    assert_eq!(native_to_percent(64), 50);
    assert_eq!(native_to_percent(126), 99);
    assert_eq!(native_to_percent(127), 99);
}

#[test]
fn round_trip_loses_at_most_one_point() {
    for p in 0u8..=100 {
        let back = native_to_percent(percent_to_native(p));
        if p == 100 {
            assert_eq!(back, 99);
        } else {
            assert!(back == p || back + 1 == p, "{} came back as {}", p, back);
        }
    }
}

#[test]
fn conversions_are_total_beyond_the_scales() {
    // Out-of-range requests still convert deterministically upward, and any
    // native reading at or beyond full scale reads back as the boundary.
    assert_eq!(percent_to_native(255), 323);
    assert_eq!(native_to_percent(65535), 99);
}

#[test]
fn volume_answer_maps_native_reading() {
    assert_eq!(volume_percent_answer(Some(127)), Some(99));
    assert_eq!(volume_percent_answer(Some(64)), Some(50));
    assert_eq!(volume_percent_answer(None), None);
}

#[test]
fn command_without_session_is_noop_success() {
    assert_eq!(media_command_outcome(false, false), Ok(()));
    assert_eq!(media_command_outcome(false, true), Ok(()));
}

#[test]
fn command_with_session_passes_call_outcome_through() {
    assert_eq!(media_command_outcome(true, true), Ok(()));
    assert_eq!(media_command_outcome(true, false), Err(BtError::ExternalCallFailure));
}

#[test]
fn system_volume_range_check() {
    assert!(validate_system_volume(0).is_ok());
    assert!(validate_system_volume(100).is_ok());
    assert_eq!(
        validate_system_volume(101).unwrap_err(),
        "Volume must be between 0 and 100"
    );
}

#[test]
fn brightness_range_check() {
    assert!(validate_brightness(0).is_ok());
    assert!(validate_brightness(100).is_ok());
    assert_eq!(
        validate_brightness(255).unwrap_err(),
        "Brightness percentage must be 0-100"
    );
}
