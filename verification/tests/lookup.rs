use rtd_driver::lookup::ResistanceTemperatureTable;
use rtd_driver::lookup::TableError;

fn two_point_table() -> ResistanceTemperatureTable {
    // 100 ohms at 0 centidegrees, 138 ohms at 10000 centidegrees.
    ResistanceTemperatureTable::new(vec![(100, 0), (138, 10000)]).unwrap()
}

#[test]
fn interpolates_between_adjacent_samples() {
    let t = two_point_table();
    // (119 - 100) * 10000 / 38 == 5000 exactly.
    assert_eq!(t.lookup(119), (5000, true));
}

#[test]
fn exact_samples_map_to_their_temperatures() {
    let t = two_point_table();
    assert_eq!(t.lookup(100), (0, true));
    assert_eq!(t.lookup(138), (10000, true));
}

#[test]
fn below_the_minimum_clamps_and_flags_out_of_range() {
    let t = two_point_table();
    assert_eq!(t.lookup(50), (0, false));
    assert_eq!(t.lookup(99), (0, false));
    assert_eq!(t.lookup(0), (0, false));
}

#[test]
fn above_the_maximum_clamps_and_flags_out_of_range() {
    let t = two_point_table();
    assert_eq!(t.lookup(139), (10000, false));
    assert_eq!(t.lookup(u32::MAX), (10000, false));
}

#[test]
fn truncates_toward_the_lower_sample() {
    let t = ResistanceTemperatureTable::new(vec![(0, 0), (3, 10)]).unwrap();
    assert_eq!(t.lookup(1), (3, true));
    assert_eq!(t.lookup(2), (6, true));
}

#[test]
fn interpolates_falling_temperatures_too() {
    let t = ResistanceTemperatureTable::new(vec![(100, 10000), (200, 0)]).unwrap();
    assert_eq!(t.lookup(150), (5000, true));
    assert_eq!(t.lookup(175), (2500, true));
}

#[test]
fn picks_the_bracketing_pair_in_a_longer_table() {
    let t = ResistanceTemperatureTable::new(vec![
        (1852, -20000),
        (10000, 0),
        (13851, 10000),
        (14607, 12000),
    ])
    .unwrap();
    assert_eq!(t.lookup(10000), (0, true));
    // Between 10000 and 13851: (11925 - 10000) * 10000 / 3851 == 4998.
    assert_eq!(t.lookup(11925), (4998, true));
    // Between 1852 and 10000: (6026 - 1852) * 20000 / 8148 - 20000 == -9755.
    assert_eq!(t.lookup(6026), (-20000 + (6026 - 1852) * 20000 / 8148, true));
    assert_eq!(t.lookup(14000), (10000 + (14000 - 13851) * 2000 / 756, true));
}

#[test]
fn single_sample_tables_always_clamp() {
    let t = ResistanceTemperatureTable::new(vec![(100, 0)]).unwrap();
    assert_eq!(t.lookup(100), (0, true));
    assert_eq!(t.lookup(99), (0, false));
    assert_eq!(t.lookup(101), (0, false));
}

#[test]
fn empty_tables_are_rejected() {
    assert_eq!(ResistanceTemperatureTable::new(Vec::new()).unwrap_err(), TableError::Empty);
}

#[test]
fn unsorted_tables_are_rejected() {
    let r = ResistanceTemperatureTable::new(vec![(100, 0), (90, 100)]);
    assert_eq!(r.unwrap_err(), TableError::NotMonotonic);
    // Equal resistances are not strictly increasing either.
    let r2 = ResistanceTemperatureTable::new(vec![(100, 0), (100, 100), (138, 10000)]);
    assert_eq!(r2.unwrap_err(), TableError::NotMonotonic);
}

#[test]
fn accepted_tables_keep_their_samples() {
    let t = two_point_table();
    assert_eq!(t.len(), 2);
    assert_eq!(t.sample(0), (100, 0));
    assert_eq!(t.sample(1), (138, 10000));
}
