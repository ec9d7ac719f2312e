use bounce::format::{push_decimal, push_hex_byte, push_padded_decimal, push_signed_decimal};
use bounce::game::{accelerated_speed, base_bhop_speed, bhop_next_state, max_bhop_speed, BhopState, Scoreboard};
use bounce::panel_sys_info::memory_percent;

#[test]
fn decimal_texts() {
    for &n in &[0u64, 7, 10, 12345, u64::MAX] {
        let mut s = String::from("n=");
        push_decimal(&mut s, n);
        assert_eq!(s, format!("n={}", n));
    }
}

#[test]
fn signed_decimal_texts() {
    for &v in &[0i64, -5, 42, i64::MIN, i64::MAX] {
        let mut s = String::new();
        push_signed_decimal(&mut s, v);
        assert_eq!(s, format!("{}", v));
    }
}

#[test]
fn hex_and_padding() {
    let mut s = String::new();
    push_hex_byte(&mut s, 0x0A);
    push_hex_byte(&mut s, 0xFF);
    assert_eq!(s, "0AFF");
    let mut p = String::new();
    push_padded_decimal(&mut p, 7, 4);
    push_padded_decimal(&mut p, 123456, 4);
    assert_eq!(p, "7   123456");
}

#[test]
fn memory_share() {
    assert_eq!(memory_percent(512, 1024), 50);
    assert_eq!(memory_percent(1, 3), 33);
    assert_eq!(memory_percent(100, 0), 0);
}

#[test]
fn speed_rules() {
    assert_eq!(base_bhop_speed(0), 150);
    assert_eq!(base_bhop_speed(1), 250);
    assert_eq!(base_bhop_speed(2), 400);
    assert_eq!(base_bhop_speed(9), 250);
    assert_eq!(max_bhop_speed(0), 300);
    assert_eq!(max_bhop_speed(1), 450);
    assert_eq!(max_bhop_speed(2), 650);
    assert_eq!(accelerated_speed(250, 1), 258);
    assert_eq!(accelerated_speed(445, 1), 450);
    assert_eq!(accelerated_speed(0, 0), 8);
}

#[test]
fn scoreboard_keeps_best() {
    let mut s = Scoreboard::new();
    s.record_pass();
    s.record_pass();
    s.respawn();
    assert_eq!((s.score, s.best), (0, 2));
    s.record_pass();
    s.respawn();
    assert_eq!((s.score, s.best), (0, 2));
}

#[test]
fn game_phases_go_round() {
    assert_eq!(bhop_next_state(BhopState::Playing, false, true), BhopState::Playing);
    assert_eq!(bhop_next_state(BhopState::Playing, true, false), BhopState::Dead);
    assert_eq!(bhop_next_state(BhopState::Dead, true, false), BhopState::Dead);
    assert_eq!(bhop_next_state(BhopState::Dead, false, true), BhopState::Respawning);
    assert_eq!(bhop_next_state(BhopState::Respawning, true, false), BhopState::Respawning);
    assert_eq!(bhop_next_state(BhopState::Respawning, false, true), BhopState::Playing);
}
