//! Round controller behavior: scoring policy, round-over stickiness, the
//! menu's difficulty selection, and the saturating score arithmetic.

use whac_a_mole::config::RoundConfig;
use whac_a_mole::game::{sat_add_i32, Game, StatusMessage};
use whac_a_mole::menu::{is_button_clicked, menu_selection};
use whac_a_mole::mole::{Mole, MoleKind};

fn varied_game(now_ms: u64) -> Game {
    Game::new(RoundConfig::for_difficulty(2).unwrap(), 2, now_ms)
}

fn classic_game(now_ms: u64) -> Game {
    Game::new(RoundConfig::for_difficulty(1).unwrap(), 1, now_ms)
}

#[test]
fn new_round_starts_hidden_and_scoreless() {
    let g = varied_game(5);
    assert_eq!(g.score, 0);
    assert!(!g.game_over);
    assert_eq!(g.start_time_ms, 5);
    assert_eq!(g.message, StatusMessage::Intro);
    assert_eq!(g.moles.len(), 4);
    let expected = [(450, 200), (850, 200), (450, 500), (850, 500)];
    for (m, (x, y)) in g.moles.iter().zip(expected) {
        assert_eq!((m.x, m.y), (x, y));
        assert!(!m.visible);
        assert_eq!(m.last_toggle_ms, 5);
        assert_eq!(m.kind, MoleKind::Normal);
    }
}

#[test]
fn third_difficulty_has_no_round() {
    assert!(RoundConfig::for_difficulty(1).is_some());
    assert!(RoundConfig::for_difficulty(2).is_some());
    assert!(RoundConfig::for_difficulty(3).is_none());
    assert!(RoundConfig::for_difficulty(0).is_none());
    assert!(RoundConfig::for_difficulty(4).is_none());
}

#[test]
fn normal_hit_scores_and_hides() {
    let mut g = varied_game(0);
    g.moles[0].visible = true;
    g.process_click(10, 450, 200);
    assert_eq!(g.score, 1);
    assert_eq!(g.message, StatusMessage::Hit);
    assert_eq!(g.message_timer_ms, 10);
    assert!(!g.moles[0].visible);
    assert_eq!(g.moles[0].last_toggle_ms, 10);
}

#[test]
fn clicking_a_hidden_target_location_is_a_miss() {
    let mut g = varied_game(0);
    g.moles[0].visible = true;
    g.process_click(10, 450, 200);
    assert_eq!(g.score, 1);
    assert!(!g.moles[0].visible);
    // same location, target now hidden: a miss, never a second hit
    g.process_click(20, 450, 200);
    assert_eq!(g.score, 1);
    assert_eq!(g.message, StatusMessage::Missed);
    assert_eq!(g.message_timer_ms, 20);
    assert!(!g.moles[0].visible);
}

#[test]
fn missing_every_target_only_sets_the_message() {
    let mut g = varied_game(0);
    g.moles[1].visible = true;
    // between the boxes: inside none of them
    g.process_click(30, 650, 350);
    assert_eq!(g.score, 0);
    assert_eq!(g.message, StatusMessage::Missed);
    assert!(g.moles[1].visible);
}

#[test]
fn armored_target_takes_exactly_three_hits() {
    let mut g = varied_game(0);
    g.moles[2] = Mole {
        x: 450,
        y: 500,
        visible: true,
        last_toggle_ms: 0,
        kind: MoleKind::Armored { health: 3 },
    };
    g.process_click(10, 450, 500);
    assert_eq!(g.score, 0);
    assert_eq!(g.message, StatusMessage::HelmetProtected);
    assert!(g.moles[2].visible);
    assert_eq!(g.moles[2].kind, MoleKind::Armored { health: 2 });

    g.process_click(20, 450, 500);
    assert_eq!(g.score, 0);
    assert_eq!(g.message, StatusMessage::HelmetProtected);
    assert!(g.moles[2].visible);
    assert_eq!(g.moles[2].kind, MoleKind::Armored { health: 1 });

    g.process_click(30, 450, 500);
    assert_eq!(g.score, 2);
    assert_eq!(g.message, StatusMessage::HelmetBroken);
    assert!(!g.moles[2].visible);
    assert_eq!(g.moles[2].last_toggle_ms, 30);
}

#[test]
fn decoy_hit_costs_five_even_below_zero() {
    let mut g = varied_game(0);
    g.moles[0].visible = true;
    g.moles[0].kind = MoleKind::Decoy;
    g.process_click(10, 450, 200);
    assert_eq!(g.score, -5);
    assert_eq!(g.message, StatusMessage::DontHitCats);
    assert!(!g.moles[0].visible);
    // again: no floor, the score keeps falling
    g.moles[1].visible = true;
    g.moles[1].kind = MoleKind::Decoy;
    g.process_click(20, 850, 200);
    assert_eq!(g.score, -10);
}

#[test]
fn overlapping_targets_score_only_the_first_in_order() {
    let mut cfg = RoundConfig::for_difficulty(2).unwrap();
    cfg.positions = vec![(450, 200), (500, 200)];
    let mut g = Game::new(cfg, 2, 0);
    g.moles[0].visible = true;
    g.moles[1].visible = true;
    // (470, 200) lies inside both 256x256 boxes
    g.process_click(10, 470, 200);
    assert_eq!(g.score, 1);
    assert!(!g.moles[0].visible);
    // the second target is untouched
    assert!(g.moles[1].visible);
    assert_eq!(g.moles[1].last_toggle_ms, 0);
    assert_eq!(g.moles[1].kind, MoleKind::Normal);
}

#[test]
fn last_moment_hit_counts_and_round_then_closes() {
    // round duration 60s, started at 0
    let mut g = classic_game(0);
    // by 59.9s every possible toggle interval has long elapsed: the first
    // tick pops every target up (classic rounds spawn normal targets only)
    let quit = g.update(59_900, Some((450, 200)), false);
    assert!(!quit);
    assert_eq!(g.score, 1);
    assert!(!g.game_over);
    assert_eq!(g.message, StatusMessage::Hit);
    // next tick crosses the threshold: the round is over, the score stands
    g.update(60_100, None, false);
    assert!(g.game_over);
    assert_eq!(g.score, 1);
    assert_eq!(g.time_left_ms(60_100), 0);
    // and every tick from then on forces the targets hidden
    g.update(60_200, None, false);
    assert!(g.game_over);
    for m in g.moles.iter() {
        assert!(!m.visible);
    }
    assert_eq!(g.score, 1);
}

#[test]
fn round_over_is_sticky_and_freezes_scoring() {
    let mut g = varied_game(0);
    g.update(60_000, None, false);
    assert!(g.game_over);
    // even a hand-made visible target cannot be scored once the round is
    // over: the tick hides it before the click is tested
    g.moles[0].visible = true;
    let quit = g.update(60_050, Some((450, 200)), true);
    assert!(quit);
    assert!(g.game_over);
    assert_eq!(g.score, 0);
    assert_eq!(g.message, StatusMessage::Missed);
    for m in g.moles.iter() {
        assert!(!m.visible);
        assert_eq!(m.last_toggle_ms, 60_050);
    }
}

#[test]
fn quit_signal_is_passed_through_regardless_of_state() {
    let mut g = varied_game(0);
    assert!(!g.update(10, None, false));
    assert!(g.update(20, None, true));
    g.update(70_000, None, false);
    assert!(g.game_over);
    assert!(g.update(70_100, None, true));
}

#[test]
fn time_left_counts_down_and_clamps_at_zero() {
    let g = classic_game(1000);
    assert_eq!(g.time_left_ms(1000), 60_000);
    assert_eq!(g.time_left_ms(31_000), 30_000);
    assert_eq!(g.time_left_ms(61_000), 0);
    assert_eq!(g.time_left_ms(100_000), 0);
    // before the start time the full duration remains
    assert_eq!(g.time_left_ms(0), 60_000);
}

#[test]
fn message_fades_after_a_quarter_second() {
    let mut g = varied_game(0);
    g.moles[0].visible = true;
    g.process_click(1000, 450, 200);
    assert!(g.message_visible(1000));
    assert!(g.message_visible(1249));
    assert!(!g.message_visible(1250));
    assert!(g.message_visible(900));
}

#[test]
fn medium_button_boundary_selects_difficulty_two() {
    // screen 1200 wide: buttons span x in [500, 700], medium y in [330, 390]
    assert_eq!(menu_selection(1200, 700, 390), Some(2));
    assert_eq!(menu_selection(1200, 500, 330), Some(2));
    assert_eq!(menu_selection(1200, 600, 360), Some(2));
    assert_eq!(menu_selection(1200, 701, 390), None);
    assert_eq!(menu_selection(1200, 700, 391), None);
}

#[test]
fn all_three_buttons_report_their_difficulty() {
    assert_eq!(menu_selection(1200, 600, 280), Some(1));
    assert_eq!(menu_selection(1200, 600, 440), Some(3));
    assert_eq!(menu_selection(1200, 600, 320), None);
    assert_eq!(menu_selection(800, 300, 280), Some(1));
    assert_eq!(menu_selection(800, 299, 280), None);
}

#[test]
fn button_rect_test_is_boundary_inclusive() {
    assert!(is_button_clicked(500, 330, 200, 60, 500, 330));
    assert!(is_button_clicked(500, 330, 200, 60, 700, 390));
    assert!(!is_button_clicked(500, 330, 200, 60, 499, 330));
    assert!(!is_button_clicked(500, 330, 200, 60, 700, 391));
}

#[test]
fn score_arithmetic_saturates_at_the_integer_bounds() {
    assert_eq!(sat_add_i32(3, -5), -2);
    assert_eq!(sat_add_i32(i32::MAX, 2), i32::MAX);
    assert_eq!(sat_add_i32(i32::MIN, -5), i32::MIN);
    assert_eq!(sat_add_i32(i32::MIN + 5, -5), i32::MIN);
    assert_eq!(sat_add_i32(-3, 5), 2);
}
