use iqos_ble::error::IqosError;
use iqos_ble::signal::compute_wrap_sum;
use iqos_ble::signal::encode_autostart;
use iqos_ble::signal::encode_brightness;
use iqos_ble::signal::encode_flexpuff;
use iqos_ble::signal::encode_smartgesture;
use iqos_ble::signal::BrightnessLevel;
use iqos_ble::signal::VibrationSettings;

#[test]
fn wrap_sum_wraps_modulo_256() {
    assert_eq!(compute_wrap_sum(&vec![]), 0);
    assert_eq!(compute_wrap_sum(&vec![0x12]), 0x12);
    assert_eq!(compute_wrap_sum(&vec![0xff, 0x02]), 0x01);
    assert_eq!(compute_wrap_sum(&vec![0x80, 0x80, 0x01]), 0x01);
}

#[test]
fn brightness_high_is_three_exact_frames_in_order() {
    let frames = encode_brightness(BrightnessLevel::High);
    assert_eq!(frames.len(), 3);
    assert_eq!(frames[0], vec![0x00, 0xc0, 0x46, 0x23, 0x64, 0x00, 0x00, 0x00, 0x4f]);
    assert_eq!(frames[1], vec![0x00, 0xc0, 0x02, 0x23, 0xc3]);
    assert_eq!(frames[2], vec![0x00, 0xc9, 0x44, 0x24, 0x64, 0x00, 0x00, 0x00, 0x34]);
}

#[test]
fn brightness_low_is_three_exact_frames_in_order() {
    let frames = encode_brightness(BrightnessLevel::Low);
    assert_eq!(frames.len(), 3);
    assert_eq!(frames[0], vec![0x00, 0xc0, 0x46, 0x23, 0x1e, 0x00, 0x00, 0x00, 0xe1]);
    assert_eq!(frames[1], vec![0x00, 0xc0, 0x02, 0x23, 0xc3]);
    assert_eq!(frames[2], vec![0x00, 0xc9, 0x44, 0x24, 0x1e, 0x00, 0x00, 0x00, 0x9a]);
}

#[test]
fn parse_brightness_is_case_insensitive() {
    assert!(matches!(BrightnessLevel::parse("HIGH"), Ok(BrightnessLevel::High)));
    assert!(matches!(BrightnessLevel::parse("high"), Ok(BrightnessLevel::High)));
    assert!(matches!(BrightnessLevel::parse("High"), Ok(BrightnessLevel::High)));
    assert!(matches!(BrightnessLevel::parse("LOW"), Ok(BrightnessLevel::Low)));
    assert!(matches!(BrightnessLevel::parse("Low"), Ok(BrightnessLevel::Low)));
    assert!(matches!(BrightnessLevel::parse("low"), Ok(BrightnessLevel::Low)));
}

#[test]
fn parse_brightness_rejects_other_text() {
    assert!(matches!(
        BrightnessLevel::parse("medium"),
        Err(IqosError::ConfigurationError(_))
    ));
    assert!(matches!(BrightnessLevel::parse(""), Err(IqosError::ConfigurationError(_))));
    assert!(matches!(
        BrightnessLevel::parse("highh"),
        Err(IqosError::ConfigurationError(_))
    ));
}

#[test]
fn brightness_as_text_is_lowercase() {
    assert_eq!(BrightnessLevel::High.as_text(), "high");
    assert_eq!(BrightnessLevel::Low.as_text(), "low");
}

#[test]
fn vibration_all_off_frame() {
    let s = VibrationSettings::new(false, false, false, false, false);
    assert_eq!(s.build(), vec![0x00, 0xc9, 0x44, 0x23, 0x10, 0x00, 0x00, 0x00, 0x40]);
}

#[test]
fn vibration_single_trigger_bits() {
    let heating = VibrationSettings::new(false, true, false, false, false);
    assert_eq!(heating.build(), vec![0x00, 0xc9, 0x44, 0x23, 0x10, 0x00, 0x01, 0x00, 0x41]);
    let starting = VibrationSettings::new(false, false, true, false, false);
    assert_eq!(starting.build(), vec![0x00, 0xc9, 0x44, 0x23, 0x10, 0x00, 0x10, 0x00, 0x50]);
    let puff_end = VibrationSettings::new(false, false, false, true, false);
    assert_eq!(puff_end.build(), vec![0x00, 0xc9, 0x44, 0x23, 0x10, 0x00, 0x00, 0x01, 0x41]);
    let terminated = VibrationSettings::new(false, false, false, false, true);
    assert_eq!(terminated.build(), vec![0x00, 0xc9, 0x44, 0x23, 0x10, 0x00, 0x00, 0x10, 0x50]);
}

#[test]
fn vibration_register_is_or_of_subset_and_checksum_wraps() {
    let all = VibrationSettings::new(false, true, true, true, true);
    let frame = all.build();
    assert_eq!(frame[6], 0x11);
    assert_eq!(frame[7], 0x11);
    let sum: u32 = frame[..8].iter().map(|&b| b as u32).sum();
    assert_eq!(frame[8] as u32, sum % 256);

    let two = VibrationSettings::new(false, true, false, true, false);
    let frame = two.build();
    assert_eq!(frame[6], 0x01);
    assert_eq!(frame[7], 0x01);
    let sum: u32 = frame[..8].iter().map(|&b| b as u32).sum();
    assert_eq!(frame[8] as u32, sum % 256);
}

#[test]
fn vibration_charging_start_is_not_encoded() {
    let without = VibrationSettings::new(false, true, false, false, false);
    let with = VibrationSettings::new(true, true, false, false, false);
    assert_eq!(without.build(), with.build());
    let only_charging = VibrationSettings::new(true, false, false, false, false);
    let none = VibrationSettings::new(false, false, false, false, false);
    assert_eq!(only_charging.build(), none.build());
}

#[test]
fn smartgesture_frames_exact() {
    assert_eq!(
        encode_smartgesture(true),
        vec![0x00, 0xc9, 0x47, 0x24, 0x04, 0x01, 0x00, 0x00, 0x3c]
    );
    assert_eq!(
        encode_smartgesture(false),
        vec![0x00, 0xc9, 0x47, 0x24, 0x04, 0x00, 0x00, 0x00, 0x57]
    );
}

#[test]
fn autostart_frames_exact() {
    assert_eq!(
        encode_autostart(true),
        vec![0x00, 0xc9, 0x47, 0x24, 0x01, 0x01, 0x00, 0x00, 0x3f]
    );
    assert_eq!(
        encode_autostart(false),
        vec![0x00, 0xc9, 0x47, 0x24, 0x01, 0x00, 0x00, 0x00, 0x54]
    );
}

#[test]
fn flexpuff_frames_exact() {
    assert_eq!(
        encode_flexpuff(true),
        vec![0x00, 0xd2, 0x45, 0x22, 0x03, 0x01, 0x00, 0x00, 0x0a]
    );
    assert_eq!(
        encode_flexpuff(false),
        vec![0x00, 0xd2, 0x45, 0x22, 0x03, 0x00, 0x00, 0x00, 0x0a]
    );
}

#[test]
fn parse_args_pairs_set_triggers() {
    let s = VibrationSettings::parse_from_args(&["heating", "on", "puffend", "on"]);
    assert!(s.when_heating_start);
    assert!(s.when_puff_end);
    assert!(!s.when_charging_start);
    assert!(!s.when_starting_to_use);
    assert!(!s.when_manually_terminated);
}

#[test]
fn parse_args_off_and_override() {
    let s = VibrationSettings::parse_from_args(&["heating", "on", "heating", "off"]);
    assert!(!s.when_heating_start);
    let s = VibrationSettings::parse_from_args(&["charge", "on", "terminated", "on", "charge", "x"]);
    assert!(!s.when_charging_start);
    assert!(s.when_manually_terminated);
}

#[test]
fn parse_args_ignores_unknown_and_trailing() {
    let s = VibrationSettings::parse_from_args(&["bogus", "on", "starting", "on", "puffend"]);
    assert!(s.when_starting_to_use);
    assert!(!s.when_puff_end);
    let s = VibrationSettings::parse_from_args(&[]);
    assert_eq!(
        (s.when_charging_start, s.when_heating_start, s.when_starting_to_use, s.when_puff_end,
         s.when_manually_terminated),
        (false, false, false, false, false)
    );
    let s = VibrationSettings::parse_from_args(&["heating"]);
    assert!(!s.when_heating_start);
}
