use rpi_led_matrix::led_matrix_options::BrightnessError;
use rpi_led_matrix::led_matrix_options::Multiplexing;
use rpi_led_matrix::led_matrix_options::Options;
use rpi_led_matrix::led_matrix_options::ParallelError;
use rpi_led_matrix::led_matrix_options::PwmBitsError;
use rpi_led_matrix::led_matrix_options::RowAddressType;
use rpi_led_matrix::led_matrix_options::ScanMode;

#[test]
fn defaults_are_documented_values() {
    let o = Options::new();
    assert_eq!(o.hardware_mapping(), "regular");
    assert_eq!(o.rows(), 32);
    assert_eq!(o.cols(), 32);
    assert_eq!(o.chain_length(), 1);
    assert_eq!(o.parallel(), 1);
    assert_eq!(o.pwm_bits(), 11);
    assert_eq!(o.pwm_lsb_nanoseconds(), 1000);
    assert_eq!(o.pwm_dither_bits(), 1);
    assert_eq!(o.brightness(), 100);
    assert_eq!(o.scan_mode(), 0);
    assert_eq!(o.row_address_type(), 0);
    assert_eq!(o.multiplexing(), 0);
    assert_eq!(o.led_rgb_sequence(), "RGB");
    assert_eq!(o.pixel_mapper_config(), "");
    assert_eq!(o.panel_type(), "");
}

// The three behavioral flags default to 1, 1, 1; the values are pinned here
// as a regression test, deliberately without guessing corrected semantics.
#[test]
fn default_flags_are_all_set() {
    let o = Options::new();
    assert_eq!(o.disable_hardware_pulsing(), 1);
    assert_eq!(o.show_refresh_rate(), 1);
    assert_eq!(o.inverse_colors(), 1);
}

#[test]
fn pwm_bits_accepts_full_range() {
    for v in 0u8..=11u8 {
        let mut o = Options::new();
        assert!(o.set_pwm_bits(v).is_ok());
        assert_eq!(o.pwm_bits(), v as i32);
    }
}

#[test]
fn pwm_bits_rejects_out_of_range_unchanged() {
    for v in [12u8, 13u8, 100u8, 255u8] {
        let mut o = Options::new();
        let r = o.set_pwm_bits(v);
        assert_eq!(r, Err(PwmBitsError { pwm_bits: v }));
        assert_eq!(o.pwm_bits(), 11);
    }
}

#[test]
fn brightness_accepts_full_range() {
    for v in 1u8..=100u8 {
        let mut o = Options::new();
        assert!(o.set_brightness(v).is_ok());
        assert_eq!(o.brightness(), v as i32);
    }
}

#[test]
fn brightness_rejects_out_of_range_unchanged() {
    for v in [0u8, 101u8, 200u8, 255u8] {
        let mut o = Options::new();
        let r = o.set_brightness(v);
        assert_eq!(r, Err(BrightnessError { brightness: v }));
        assert_eq!(o.brightness(), 100);
    }
}

#[test]
fn parallel_accepts_one_to_three() {
    for v in 1u16..=3u16 {
        let mut o = Options::new();
        assert!(o.set_parallel(v).is_ok());
        assert_eq!(o.parallel(), v as i32);
    }
}

#[test]
fn parallel_rejects_out_of_range_unchanged() {
    for v in [0u16, 4u16, 100u16, u16::MAX] {
        let mut o = Options::new();
        let r = o.set_parallel(v);
        assert_eq!(r, Err(ParallelError { parallel: v }));
        assert_eq!(o.parallel(), 1);
    }
}

#[test]
fn failed_setter_leaves_whole_record_unchanged() {
    let mut o = Options::new();
    o.set_rows(64);
    o.set_hardware_mapping("adafruit-hat");
    assert!(o.set_brightness(0).is_err());
    assert!(o.set_pwm_bits(12).is_err());
    assert!(o.set_parallel(9).is_err());
    assert_eq!(o.rows(), 64);
    assert_eq!(o.hardware_mapping(), "adafruit-hat");
    assert_eq!(o.brightness(), 100);
    assert_eq!(o.pwm_bits(), 11);
    assert_eq!(o.parallel(), 1);
}

// Repeated replacement of a string field: after N consecutive calls the
// record holds exactly the most recent value.
#[test]
fn string_setter_keeps_only_last_value() {
    let mut o = Options::new();
    for i in 0..16 {
        let name = format!("mapping-{}", i);
        o.set_hardware_mapping(&name);
        assert_eq!(o.hardware_mapping(), name);
    }
    assert_eq!(o.hardware_mapping(), "mapping-15");

    o.set_led_rgb_sequence("BGR");
    o.set_led_rgb_sequence("GRB");
    assert_eq!(o.led_rgb_sequence(), "GRB");

    o.set_pixel_mapper_config("U-mapper");
    o.set_pixel_mapper_config("U-mapper;Rotate:90");
    assert_eq!(o.pixel_mapper_config(), "U-mapper;Rotate:90");

    o.set_panel_type("FM6126A");
    o.set_panel_type("");
    assert_eq!(o.panel_type(), "");
}

#[test]
fn unvalidated_setters_store_values() {
    let mut o = Options::new();
    o.set_rows(16);
    o.set_cols(192);
    o.set_chain_length(4);
    o.set_pwm_lsb_nanoseconds(130);
    o.set_pwm_dither_bits(2);
    assert_eq!(o.rows(), 16);
    assert_eq!(o.cols(), 192);
    assert_eq!(o.chain_length(), 4);
    assert_eq!(o.pwm_lsb_nanoseconds(), 130);
    assert_eq!(o.pwm_dither_bits(), 2);
}

#[test]
fn enumerated_setters_store_native_codes() {
    let mut o = Options::new();
    o.set_scan_mode(ScanMode::Interlaced);
    assert_eq!(o.scan_mode(), 1);
    o.set_scan_mode(ScanMode::Progressive);
    assert_eq!(o.scan_mode(), 0);
    o.set_row_address_type(RowAddressType::ABCShiftRegister);
    assert_eq!(o.row_address_type(), 3);
    o.set_multiplexing(Multiplexing::Coreman);
    assert_eq!(o.multiplexing(), 6);
    o.set_multiplexing(Multiplexing::ZStripe);
    assert_eq!(o.multiplexing(), 4);
}

#[test]
fn flag_setters_store_one_or_zero() {
    let mut o = Options::new();
    o.set_disable_hardware_pulsing(false);
    o.set_show_refresh_rate(false);
    o.set_inverse_colors(false);
    assert_eq!(o.disable_hardware_pulsing(), 0);
    assert_eq!(o.show_refresh_rate(), 0);
    assert_eq!(o.inverse_colors(), 0);
    o.set_disable_hardware_pulsing(true);
    o.set_show_refresh_rate(true);
    o.set_inverse_colors(true);
    assert_eq!(o.disable_hardware_pulsing(), 1);
    assert_eq!(o.show_refresh_rate(), 1);
    assert_eq!(o.inverse_colors(), 1);
}
