//! Target entity behavior: hit tests, hiding, the randomized update tick.

use whac_a_mole::config::RoundConfig;
use whac_a_mole::hit::{point_in_circle, point_in_rect};
use whac_a_mole::mole::{Mole, MoleKind};

fn varied() -> RoundConfig {
    RoundConfig::for_difficulty(2).unwrap()
}

fn classic() -> RoundConfig {
    RoundConfig::for_difficulty(1).unwrap()
}

#[test]
fn hidden_target_never_registers_a_hit() {
    let m = Mole::new(450, 200, 0);
    assert!(!m.visible);
    // dead center, corners, far away: nothing registers while hidden
    assert!(!m.is_clicked(450, 200));
    assert!(!m.is_clicked(322, 72));
    assert!(!m.is_clicked(578, 328));
    assert!(!m.is_clicked(i32::MIN, i32::MAX));
}

#[test]
fn visible_target_box_is_boundary_inclusive() {
    let mut m = Mole::new(450, 200, 0);
    m.visible = true;
    assert!(m.is_clicked(450, 200));
    // the 256x256 box spans [322, 578] x [72, 328]
    assert!(m.is_clicked(322, 72));
    assert!(m.is_clicked(578, 328));
    assert!(!m.is_clicked(321, 200));
    assert!(!m.is_clicked(579, 200));
    assert!(!m.is_clicked(450, 71));
    assert!(!m.is_clicked(450, 329));
}

#[test]
fn force_hide_rearms_the_toggle_timer() {
    let mut m = Mole::new(450, 200, 0);
    m.visible = true;
    m.kind = MoleKind::Decoy;
    m.force_hide(77);
    assert!(!m.visible);
    assert_eq!(m.last_toggle_ms, 77);
    // position and variant survive
    assert_eq!(m.x, 450);
    assert_eq!(m.y, 200);
    assert_eq!(m.kind, MoleKind::Decoy);
    // and it cannot register a hit any more
    assert!(!m.is_clicked(450, 200));
}

#[test]
fn hidden_target_pops_up_once_any_interval_has_elapsed() {
    let cfg = classic();
    let mut m = Mole::new(450, 200, 0);
    // every possible interval draw is below 4000ms, so 4001ms later the
    // target must be up; a garbage draw outside the range would keep it down
    m.update(4001, &cfg);
    assert!(m.visible);
    assert_eq!(m.last_toggle_ms, 4001);
    // the classic thresholds leave no room for armored targets or decoys
    assert_eq!(m.kind, MoleKind::Normal);
}

#[test]
fn hidden_target_stays_down_before_any_interval_can_elapse() {
    let cfg = varied();
    let mut m = Mole::new(450, 200, 1000);
    // every interval draw is at least 500ms (even for armored targets)
    m.update(1400, &cfg);
    assert!(!m.visible);
    assert_eq!(m.last_toggle_ms, 1000);
}

#[test]
fn visible_target_never_toggles_on_a_timer() {
    let cfg = varied();
    let mut m = Mole::new(450, 200, 0);
    m.visible = true;
    m.kind = MoleKind::Armored { health: 2 };
    m.update(1_000_000, &cfg);
    assert!(m.visible);
    assert_eq!(m.last_toggle_ms, 0);
    assert_eq!(m.kind, MoleKind::Armored { health: 2 });
}

#[test]
fn rect_test_is_boundary_inclusive() {
    assert!(point_in_rect(100, 100, 10, 20, 110, 120));
    assert!(point_in_rect(100, 100, 10, 20, 90, 80));
    assert!(!point_in_rect(100, 100, 10, 20, 111, 100));
    assert!(!point_in_rect(100, 100, 10, 20, 100, 79));
    // extreme coordinates must not wrap around
    assert!(!point_in_rect(i32::MAX, 0, 128, 128, i32::MIN, 0));
}

#[test]
fn circle_test_is_boundary_exclusive() {
    // 30-40-50 triangle: distance exactly the radius is a miss
    assert!(!point_in_circle(0, 0, 50, 30, 40));
    assert!(point_in_circle(0, 0, 50, 30, 39));
    assert!(point_in_circle(400, 300, 50, 400, 300));
    assert!(!point_in_circle(400, 300, 50, 449, 310));
    // extreme coordinates must not wrap around
    assert!(!point_in_circle(i32::MAX, i32::MAX, 100, i32::MIN, i32::MIN));
}
