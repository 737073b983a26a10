use rollback_core::input::{
    capture_input, get_input_direction, INPUT_LEFT, INPUT_RIGHT, INPUT_STRIKE, INPUT_UP,
    INPUT_UP_PRESSED,
};

#[test]
fn capture_sets_each_bit() {
    assert_eq!(capture_input(false, false, false, false, false), 0);
    assert_eq!(capture_input(true, false, false, false, false), INPUT_UP);
    assert_eq!(capture_input(false, true, false, false, false), INPUT_LEFT);
    assert_eq!(capture_input(false, false, true, false, false), INPUT_RIGHT);
    assert_eq!(capture_input(false, false, false, true, false), INPUT_STRIKE);
    assert_eq!(capture_input(false, false, false, false, true), INPUT_UP_PRESSED);
    assert_eq!(
        capture_input(true, true, true, true, true),
        INPUT_UP | INPUT_LEFT | INPUT_RIGHT | INPUT_STRIKE | INPUT_UP_PRESSED
    );
}

#[test]
fn direction_decodes_horizontal_movement() {
    assert_eq!(get_input_direction(0).x, 0);
    assert_eq!(get_input_direction(INPUT_RIGHT).x, 1);
    assert_eq!(get_input_direction(INPUT_LEFT).x, -1);
    // Opposing directions cancel; vertical component is never set.
    assert_eq!(get_input_direction(INPUT_LEFT | INPUT_RIGHT).x, 0);
    assert_eq!(get_input_direction(INPUT_UP | INPUT_STRIKE).x, 0);
    assert_eq!(get_input_direction(INPUT_RIGHT | INPUT_UP).y, 0);
}

#[test]
fn every_bit_pattern_decodes() {
    // decode is total: no mask panics, and the result depends only on the
    // two horizontal bits.
    for mask in 0..=255u8 {
        let d = get_input_direction(mask);
        let expect = i64::from(mask & INPUT_RIGHT != 0) - i64::from(mask & INPUT_LEFT != 0);
        assert_eq!(d.x, expect);
        assert_eq!(d.y, 0);
    }
}
