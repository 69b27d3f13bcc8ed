use vorton_render::frame::{attribute_index_of, draw_count_of};

#[test]
fn small_counts_are_handed_on() {
    assert_eq!(draw_count_of(0), 0);
    assert_eq!(draw_count_of(1), 1);
    assert_eq!(draw_count_of(3), 3);
    assert_eq!(draw_count_of(2_147_483_647), i32::MAX);
}

#[test]
fn large_counts_wrap_as_a_cast_does() {
    assert_eq!(draw_count_of(2_147_483_648), i32::MIN);
    assert_eq!(draw_count_of(2_147_483_649), -2_147_483_647);
    assert_eq!(draw_count_of(4_294_967_295), -1);
    for count in [0usize, 5, 2_147_483_647, 2_147_483_648, 3_000_000_000, 4_294_967_295] {
        assert_eq!(draw_count_of(count), count as i32);
    }
}

#[test]
fn counts_beyond_thirty_two_bits_keep_their_low_bits() {
    let wide: u64 = 4_294_967_296;
    if let Ok(base) = usize::try_from(wide) {
        assert_eq!(draw_count_of(base), 0);
        assert_eq!(draw_count_of(base + 5), 5);
        assert_eq!(draw_count_of(base + 2_147_483_648), i32::MIN);
        assert_eq!(draw_count_of(usize::MAX), -1);
        assert_eq!(draw_count_of(usize::MAX), usize::MAX as i32);
    }
}

#[test]
fn locations_from_zero_up_are_their_own_index() {
    assert_eq!(attribute_index_of(0), 0);
    assert_eq!(attribute_index_of(1), 1);
    assert_eq!(attribute_index_of(7), 7);
    assert_eq!(attribute_index_of(i32::MAX), 2_147_483_647);
}

#[test]
fn negative_locations_wrap_as_a_cast_does() {
    assert_eq!(attribute_index_of(-1), 4_294_967_295);
    assert_eq!(attribute_index_of(-2), 4_294_967_294);
    assert_eq!(attribute_index_of(i32::MIN), 2_147_483_648);
    for location in [-1i32, -2, -1000, i32::MIN, 0, 12, i32::MAX] {
        assert_eq!(attribute_index_of(location), location as u32);
    }
}
