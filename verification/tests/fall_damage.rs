use mc_entity::fall_damage::apply_jump_boost_reduction;

#[test]
fn jump_boost_reduces_damage() {
    assert_eq!(apply_jump_boost_reduction(5, 2), 3);
}

#[test]
fn jump_boost_does_not_go_negative() {
    assert_eq!(apply_jump_boost_reduction(1, 5), 0);
}

#[test]
fn jump_boost_zero_is_noop() {
    assert_eq!(apply_jump_boost_reduction(7, 0), 7);
}
