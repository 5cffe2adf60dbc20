use retro_running::hud::PauseOutcome;
use retro_running::Main;
use retro_running::Portal;
use retro_running::Realm;
use retro_running::UI;

#[test]
fn fresh_portal_leads_to_the_overworld() {
    let p = Portal::new();
    assert_eq!(p.portal_realm, Realm::Overworld);
}

#[test]
fn setup_never_picks_the_current_realm() {
    let realms = [Realm::Overworld, Realm::Nether, Realm::EightBit, Realm::Inverted];
    for current in realms {
        for _ in 0..200 {
            let mut portal = Portal::new();
            portal.setup(&current);
            assert_ne!(portal.portal_realm, current);
            assert!(realms.contains(&portal.portal_realm));
        }
    }
}

#[test]
fn spawn_portal_avoids_the_run_realm() {
    let m = Main::new();
    for _ in 0..100 {
        let mut portal = Portal::new();
        m.spawn_portal(&mut portal);
        assert_ne!(portal.portal_realm, Realm::Overworld);
    }
}

#[test]
fn realm_colours_are_fixed() {
    assert_eq!(Realm::Overworld.get_colour(), (77, 140, 87));
    assert_eq!(Realm::EightBit.get_colour(), (255, 105, 180));
    assert_eq!(Realm::Nether.get_colour(), (139, 0, 0));
    assert_eq!(Realm::Inverted.get_colour(), (104, 51, 255));
}

#[test]
fn realm_order_round_trips() {
    let realms = [Realm::Overworld, Realm::Nether, Realm::EightBit, Realm::Inverted];
    for (i, r) in realms.iter().enumerate() {
        assert_eq!(r.index(), i as u32);
        assert_eq!(Realm::from_index(i as u32), *r);
    }
    assert_eq!(Realm::from_index(9), Realm::Overworld);
}

#[test]
fn fresh_hud_sits_in_the_menu() {
    let ui = UI::new();
    assert!(!ui.paused);
    assert!(ui.in_menu);
    assert_eq!(ui.score, 0);
}

#[test]
fn pause_is_ignored_in_the_menu() {
    let mut ui = UI::new();
    assert!(!ui.pause());
    assert!(!ui.paused);
    assert_eq!(ui.handle_pause_pressed(), PauseOutcome::Ignored);
    assert!(!ui.paused);
}

#[test]
fn pause_toggles_during_a_run() {
    let mut ui = UI::new();
    ui.play();
    assert!(!ui.in_menu);
    assert!(!ui.paused);

    assert_eq!(ui.handle_pause_pressed(), PauseOutcome::Engaged);
    assert!(ui.paused);

    assert_eq!(ui.handle_pause_pressed(), PauseOutcome::Released);
    assert!(!ui.paused);
}

#[test]
fn pausing_twice_engages_once() {
    let mut ui = UI::new();
    ui.play();
    assert!(ui.pause());
    assert!(!ui.pause());
    assert!(ui.paused);
}

#[test]
fn unpause_clears_a_pause() {
    let mut ui = UI::new();
    ui.play();
    ui.pause();
    ui.unpause();
    assert!(!ui.paused);
    assert!(!ui.in_menu);
}

#[test]
fn score_label_mirrors_the_score() {
    let mut ui = UI::new();
    ui.update_score(42);
    assert_eq!(ui.score, 42);
    assert!(ui.in_menu);
}
