use retro_running::Main;
use retro_running::PlatformDirection;
use retro_running::Player;

#[test]
fn new_run_starts_at_zero() {
    let m = Main::new();
    assert_eq!(m.score, 0);
    assert_eq!(m.game_intensity, 0);
    assert_eq!(m.floor_count, 0);
}

#[test]
fn first_threshold_fires_at_one_hundred() {
    let mut m = Main::new();
    let mut p = Player::new();
    for expected in 1..100 {
        let up = m.increase_score(&mut p);
        assert!(!up);
        assert_eq!(m.score, expected);
    }
    let up = m.increase_score(&mut p);
    assert!(up);
    assert_eq!(m.score, 100);
    assert_eq!(m.game_intensity, 1);
    assert_eq!(p.speed, 30);
}

#[test]
fn every_threshold_fires_once_up_to_the_last() {
    let mut m = Main::new();
    let mut p = Player::new();
    let mut fired_at = Vec::new();
    while m.score < 900 {
        if m.increase_score(&mut p) {
            fired_at.push(m.score);
        }
    }
    assert_eq!(fired_at, vec![100, 200, 300, 400, 500, 600, 700, 850]);
    assert_eq!(m.game_intensity, 8);
    assert_eq!(p.speed, 20 + 8 * 10);
}

#[test]
fn threshold_needs_the_matching_intensity() {
    // A score reaching 200 while the intensity is still at the base tier
    // crosses no threshold: the table is checked at the current tier only.
    let mut m = Main::new();
    m.score = 199;
    let mut p = Player::new();
    let up = m.increase_score(&mut p);
    assert!(!up);
    assert_eq!(m.score, 200);
    assert_eq!(m.game_intensity, 0);
    assert_eq!(p.speed, 20);
}

#[test]
fn increase_speed_adds_one_step() {
    let m = Main::new();
    let mut p = Player::new();
    m.increase_speed(&mut p);
    assert_eq!(p.speed, 30);
    assert_eq!(p.jump_power, 10);
    assert_eq!(p.gravity, 30);
}

#[test]
fn floors_count_up_and_slide_out() {
    let mut m = Main::new();
    assert_eq!(m.target_floor_z(), 0);
    m.spawn_floor();
    m.spawn_floor();
    m.spawn_floor();
    assert_eq!(m.floor_count, 3);
    assert_eq!(m.target_floor_z(), -210);
}

#[test]
fn lane_names_match_the_platform_nodes() {
    assert_eq!(PlatformDirection::Left.name(), "Left");
    assert_eq!(PlatformDirection::Right.name(), "Right");
    assert_eq!(PlatformDirection::Center.name(), "Center");
}

#[test]
fn lane_offsets_are_fixed() {
    assert_eq!(PlatformDirection::Center.target_x_millis(), 0);
    assert_eq!(PlatformDirection::Right.target_x_millis(), 4437);
    assert_eq!(PlatformDirection::Left.target_x_millis(), -4432);
}

#[test]
fn sampled_lanes_cover_only_the_three_lanes() {
    for _ in 0..200 {
        let d = PlatformDirection::sample();
        assert!(matches!(
            d,
            PlatformDirection::Left | PlatformDirection::Center | PlatformDirection::Right
        ));
    }
}
