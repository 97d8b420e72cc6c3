use rtd_driver::decode::decode;

#[test]
fn one_count_decodes_to_one_hundredth_ohm() {
    // Raw 16-bit value 0x0002: fault bit clear, ADC code 1.
    // (1 * 43234) >> 15 == 1.
    let r = decode(0x00, 0x02, 43234);
    assert_eq!(r.ohms, 1);
    assert!(!r.fault);
}

#[test]
fn full_scale_decodes_near_the_calibration_constant() {
    // Raw 0xFFFE: fault bit clear, ADC code 0x7FFF (all ones).
    // (32767 * 43234) >> 15 == 43232, one scale step under the reference.
    let r = decode(0xff, 0xfe, 43234);
    assert_eq!(r.ohms, (32767u64 * 43234 >> 15) as u32);
    assert_eq!(r.ohms, 43232);
    assert!(!r.fault);
}

#[test]
fn zero_code_decodes_to_zero() {
    let r = decode(0x00, 0x00, 43234);
    assert_eq!(r.ohms, 0);
    assert!(!r.fault);
}

#[test]
fn fault_bit_is_surfaced() {
    let r = decode(0x00, 0x03, 43234);
    assert!(r.fault);
    let r2 = decode(0xff, 0xff, 43234);
    assert!(r2.fault);
}

#[test]
fn calibration_scales_the_code() {
    // With the calibration constant equal to the ADC's full range, the
    // resistance equals the ADC code itself.
    let r = decode(0x5d, 0x2a, 32768);
    assert_eq!(r.ohms, 0x5d2a >> 1);
    assert!(!r.fault);
}
