use tf2_trainer::esp::{health_bar_color, health_bar_scale, is_esp_target};
use tf2_trainer::sdk::PlayerEntity;

fn player(start: usize, team: i32) -> PlayerEntity {
    PlayerEntity { start, health: 100, max_health: 125, lifestate: 0, flags: 1, team, dormant: false }
}

#[test]
fn enemy_alive_awake_player_is_a_target() {
    let local = player(0x1000, 2);
    assert!(is_esp_target(&local, &player(0x2000, 3)));
}

#[test]
fn local_player_teammates_dead_and_dormant_are_skipped() {
    let local = player(0x1000, 2);
    assert!(!is_esp_target(&local, &local));
    assert!(!is_esp_target(&local, &player(0x2000, 2)));
    let mut dead = player(0x3000, 3);
    dead.lifestate = 1;
    assert!(!is_esp_target(&local, &dead));
    let mut dormant = player(0x4000, 3);
    dormant.dormant = true;
    assert!(!is_esp_target(&local, &dormant));
}

#[test]
fn health_bar_scale_full_when_overhealed() {
    assert_eq!(health_bar_scale(150, 125), None);
    assert_eq!(health_bar_scale(126, 125), None);
}

#[test]
fn health_bar_scale_is_a_share_otherwise() {
    assert_eq!(health_bar_scale(125, 125), Some((125, 125)));
    assert_eq!(health_bar_scale(50, 125), Some((50, 125)));
    assert_eq!(health_bar_scale(0, 0), Some((0, 0)));
}

#[test]
fn health_bar_colors() {
    let blue = health_bar_color(true);
    assert_eq!((blue.r, blue.g, blue.b, blue.a), (0, 0, 255, 255));
    let green = health_bar_color(false);
    assert_eq!((green.r, green.g, green.b, green.a), (0, 255, 0, 255));
}
