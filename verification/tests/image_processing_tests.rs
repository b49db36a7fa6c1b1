use doxle_shared::image_processing::needs_half_width;

#[test]
fn test_needs_half_width() {
    // Small file, small dimensions: no
    assert_eq!(needs_half_width(500_000, 1024, 768), false);

    // Large file, small dimensions: yes
    assert_eq!(needs_half_width(2_000_000, 1024, 768), true);

    // Small file, large dimensions: yes
    assert_eq!(needs_half_width(500_000, 4000, 3000), true);

    // Large file, large dimensions: yes
    assert_eq!(needs_half_width(2_000_000, 4000, 3000), true);
}

#[test]
fn half_width_thresholds_are_inclusive() {
    assert_eq!(needs_half_width(999_999, 2047, 2047), false);
    assert_eq!(needs_half_width(1_000_000, 0, 0), true);
    assert_eq!(needs_half_width(0, 2048, 0), true);
    assert_eq!(needs_half_width(0, 0, 2048), true);
    assert_eq!(needs_half_width(0, 0, 0), false);
}
