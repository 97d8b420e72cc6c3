use rtd_driver::pins::gpio_get_pin;
use rtd_driver::pins::resolve;

#[test]
fn mapped_pins_resolve_to_documented_lines() {
    let table: [(u64, u64); 24] = [
        (1, 508),
        (2, 509),
        (4, 378),
        (5, 377),
        (6, 371),
        (7, 372),
        (9, 375),
        (10, 374),
        (11, 373),
        (12, 370),
        (14, 425),
        (15, 426),
        (16, 496),
        (17, 497),
        (19, 494),
        (20, 495),
        (21, 503),
        (22, 504),
        (24, 502),
        (25, 505),
        (26, 507),
        (27, 506),
        (29, 356),
        (41, 440),
    ];
    for (pin, line) in table {
        assert_eq!(gpio_get_pin(pin), line);
        assert_eq!(resolve(pin), Some(line));
    }
}

#[test]
fn unmapped_pins_resolve_to_zero() {
    for pin in [0u64, 3, 8, 13, 18, 23, 28, 30, 40, 42, 1000, u64::MAX] {
        assert_eq!(gpio_get_pin(pin), 0);
        assert_eq!(resolve(pin), None);
    }
}

#[test]
fn chip_select_and_ready_pins_of_the_reference_board() {
    // The reference wiring: chip select on header pin 12, conversion-ready on
    // header pin 7.
    assert_eq!(gpio_get_pin(12), 370);
    assert_eq!(gpio_get_pin(7), 372);
}
