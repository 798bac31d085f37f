use asteroids::ship::may_shoot;

#[test]
fn it_cannot_shoot_if_destroyed() {
    assert!(!may_shoot(false, true));
    assert!(!may_shoot(true, true));
}

#[test]
fn fires_only_when_cooled_down() {
    assert!(may_shoot(false, false));
    assert!(!may_shoot(true, false));
}
