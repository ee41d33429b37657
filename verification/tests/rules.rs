use orbital_escape::ammo::Ammo;
use orbital_escape::cache::{cache_key, CircleAssets};
use orbital_escape::game::{menu_transition, GameState, InteractionResult, LevelProgress, MenuInput};
use orbital_escape::hud::{format_clock, game_over_reason, pull_radius_palette, victory_message};
use orbital_escape::level::{level_ammo, level_layout, tutorial_hint, PlanetSpec, SHIP_CLEARANCE};
use orbital_escape::palette::Palette;

fn input(space: bool, left_click: bool, escape: bool, keys: [bool; 5]) -> MenuInput {
    MenuInput { space, left_click, escape, level_keys: keys }
}

const NO_KEYS: [bool; 5] = [false; 5];

#[test]
fn game_opens_on_title() {
    assert_eq!(GameState::default(), GameState::Title);
}

#[test]
fn title_goes_to_level_select_on_space_or_click() {
    let mut p = LevelProgress { current_level: 0, total_levels: 0 };
    assert_eq!(menu_transition(GameState::Title, &input(true, false, false, NO_KEYS), &mut p), Some(GameState::LevelSelect));
    assert_eq!(menu_transition(GameState::Title, &input(false, true, false, NO_KEYS), &mut p), Some(GameState::LevelSelect));
    assert_eq!(menu_transition(GameState::Title, &input(false, false, true, NO_KEYS), &mut p), None);
    assert_eq!(p, LevelProgress { current_level: 0, total_levels: 0 });
}

#[test]
fn level_select_picks_the_lowest_pressed_level() {
    let mut p = LevelProgress { current_level: 0, total_levels: 0 };
    let next = menu_transition(GameState::LevelSelect, &input(false, false, true, [false, false, true, true, false]), &mut p);
    assert_eq!(next, Some(GameState::Playing));
    assert_eq!(p.current_level, 3);
    let next = menu_transition(GameState::LevelSelect, &input(false, false, false, [false, false, false, false, true]), &mut p);
    assert_eq!(next, Some(GameState::Playing));
    assert_eq!(p.current_level, 5);
    let next = menu_transition(GameState::LevelSelect, &input(true, true, true, NO_KEYS), &mut p);
    assert_eq!(next, Some(GameState::Title));
    assert_eq!(p.current_level, 5);
    let next = menu_transition(GameState::LevelSelect, &input(true, true, false, NO_KEYS), &mut p);
    assert_eq!(next, None);
}

#[test]
fn game_over_retries_or_returns_to_level_select() {
    let mut p = LevelProgress { current_level: 4, total_levels: 5 };
    assert_eq!(menu_transition(GameState::GameOver, &input(true, false, true, NO_KEYS), &mut p), Some(GameState::Playing));
    assert_eq!(menu_transition(GameState::GameOver, &input(false, false, true, NO_KEYS), &mut p), Some(GameState::LevelSelect));
    assert_eq!(menu_transition(GameState::GameOver, &input(false, false, false, NO_KEYS), &mut p), None);
    assert_eq!(p.current_level, 4);
}

#[test]
fn victory_continues_or_restarts_the_campaign() {
    let mut p = LevelProgress { current_level: 3, total_levels: 5 };
    assert_eq!(menu_transition(GameState::Victory, &input(false, true, false, NO_KEYS), &mut p), Some(GameState::Playing));
    assert_eq!(p.current_level, 3);
    let mut done = LevelProgress { current_level: 6, total_levels: 5 };
    assert_eq!(menu_transition(GameState::Victory, &input(true, false, false, NO_KEYS), &mut done), Some(GameState::LevelSelect));
    assert_eq!(done.current_level, 1);
    assert_eq!(menu_transition(GameState::Victory, &input(false, false, true, NO_KEYS), &mut p), Some(GameState::LevelSelect));
}

#[test]
fn menu_input_is_ignored_while_playing() {
    let mut p = LevelProgress { current_level: 2, total_levels: 5 };
    assert_eq!(menu_transition(GameState::Playing, &input(true, true, true, [true; 5]), &mut p), None);
    assert_eq!(p.current_level, 2);
}

#[test]
fn starting_a_level_fixes_the_campaign() {
    let mut p = LevelProgress { current_level: 0, total_levels: 0 };
    p.start_level();
    assert_eq!(p, LevelProgress { current_level: 1, total_levels: 5 });
    let mut q = LevelProgress { current_level: 4, total_levels: 0 };
    q.start_level();
    assert_eq!(q, LevelProgress { current_level: 4, total_levels: 5 });
}

#[test]
fn clearing_levels_stops_at_the_last() {
    let mut p = LevelProgress { current_level: 1, total_levels: 5 };
    for expected in [2, 3, 4, 5, 5, 5] {
        p.complete_level();
        assert_eq!(p.current_level, expected);
        assert!(!p.is_campaign_cleared());
        assert_eq!(victory_message(&p), "LEVEL CLEARED!");
    }
    let done = LevelProgress { current_level: 6, total_levels: 5 };
    assert!(done.is_campaign_cleared());
    assert_eq!(victory_message(&done), "MISSION COMPLETE! ALL TUTORIALS CLEARED!");
}

#[test]
fn interaction_results_are_distinct() {
    assert_ne!(InteractionResult::DestroyPlayer, InteractionResult::ReachGoal);
    assert_ne!(InteractionResult::ReachGoal, InteractionResult::NoEffect);
}

fn planet(x: i32, y: i32, pull_radius: u32, body_radius: u32, gravity_force: u32) -> PlanetSpec {
    PlanetSpec { x, y, pull_radius, body_radius, gravity_force }
}

#[test]
fn level_layouts() {
    let l1 = level_layout(1);
    assert_eq!((l1.time_limit_secs, l1.ammo, l1.start, l1.goal), (12, 5, (-120, -120), (150, 150)));
    assert_eq!(l1.planets, vec![planet(40, -40, 50, 16, 16)]);
    let l2 = level_layout(2);
    assert_eq!((l2.time_limit_secs, l2.ammo, l2.start, l2.goal), (14, 6, (-140, 0), (190, 0)));
    assert_eq!(l2.planets, vec![planet(20, 0, 60, 18, 18)]);
    let l3 = level_layout(3);
    assert_eq!((l3.time_limit_secs, l3.ammo, l3.start, l3.goal), (12, 6, (0, -140), (-160, 160)));
    assert_eq!(l3.planets, vec![planet(0, 0, 70, 20, 20)]);
    let l4 = level_layout(4);
    assert_eq!((l4.time_limit_secs, l4.ammo, l4.start, l4.goal), (14, 7, (-140, -140), (180, 180)));
    assert_eq!(l4.planets, vec![planet(40, 40, 80, 24, 22)]);
    for level in [5, 0, 9] {
        let l = level_layout(level);
        assert_eq!((l.time_limit_secs, l.ammo, l.start, l.goal), (16, 8, (-150, -150), (235, 215)));
        assert_eq!(
            l.planets,
            vec![planet(-50, -30, 55, 16, 14), planet(50, 55, 60, 18, 12), planet(155, 140, 55, 16, 14)]
        );
    }
}

#[test]
fn every_planet_can_be_orbited_and_ammo_bar_matches_the_ship() {
    for level in 0..8 {
        let l = level_layout(level);
        assert_eq!(l.ammo, level_ammo(level));
        for p in &l.planets {
            assert!(p.body_radius + SHIP_CLEARANCE <= p.pull_radius);
        }
    }
}

#[test]
fn tutorial_hints() {
    assert_eq!(tutorial_hint(1), "TUTORIAL 1: Press [A/D] to steer. Left-click to blast away and thrust forward!");
    assert_eq!(tutorial_hint(4), "TUTORIAL 4: Blasting near a planet temporarily stuns its gravitational pull!");
    assert_eq!(tutorial_hint(5), "CHALLENGE: Chain multiple planet orbits for maximum momentum & speed!");
}

#[test]
fn firing_uses_up_blasts() {
    let mut a = Ammo::full(2);
    assert!(a.reticle_visible());
    assert!(a.fire());
    assert_eq!(a, Ammo { ammo: 1, max_ammo: 2 });
    assert!(a.fire());
    assert!(!a.reticle_visible());
    assert!(!a.fire());
    assert_eq!(a, Ammo { ammo: 0, max_ammo: 2 });
}

#[test]
fn ammo_bar_fills_from_the_bottom() {
    let a = Ammo { ammo: 3, max_ammo: 7 };
    assert_eq!(a.empty_segments(), 4);
    let bar: Vec<bool> = (0..7).map(|i| a.segment_is_full(i)).collect();
    assert_eq!(bar, vec![false, false, false, false, true, true, true]);
    assert!(!a.segment_is_full(7));
    let over = Ammo { ammo: 9, max_ammo: 2 };
    assert_eq!(over.empty_segments(), 0);
    assert!(over.segment_is_full(0) && over.segment_is_full(1) && !over.segment_is_full(2));
}

#[test]
fn clock_texts() {
    assert_eq!(format_clock(9, 25), "09.25s");
    assert_eq!(format_clock(0, 0), "00.00s");
    assert_eq!(format_clock(12, 5), "12.05s");
    assert_eq!(format_clock(123, 99), "123.99s");
}

#[test]
fn screen_titles_and_ring_colors() {
    assert_eq!(game_over_reason(true), "TIME EXPIRED!");
    assert_eq!(game_over_reason(false), "SHIP DESTROYED!");
    assert_eq!(pull_radius_palette(true), Palette::Slate);
    assert_eq!(pull_radius_palette(false), Palette::Plum);
}

#[test]
fn circle_cache_creates_each_sprite_once() {
    let mut assets: CircleAssets<u32> = CircleAssets::new();
    let mut made = 0u32;
    let plum = Palette::Plum.rgba_bytes(255);
    let mint = Palette::Mint.rgba_bytes(255);
    let (a, a_unused) = assets.get_or_create(50, plum, || { made += 1; 100 });
    assert!(a_unused.is_none());
    let (b, b_unused) = assets.get_or_create(50, plum, || { made += 1; 200 });
    assert!(b_unused.is_some());
    let (c, _) = assets.get_or_create(50, mint, || { made += 1; 300 });
    let (d, _) = assets.get_or_create(16, plum, || { made += 1; 400 });
    assert_eq!((a, b, c, d), (100, 100, 300, 400));
    assert_eq!(made, 3);
    assert_eq!(assets.get(50, plum), Some(&100));
    assert_eq!(assets.get(3, plum), None);
}

#[test]
fn cache_keys_separate_radius_and_channels() {
    assert_eq!(cache_key(1, [0, 0, 0, 0]), 1u64 << 32);
    assert_eq!(cache_key(0, [0x12, 0x34, 0x56, 0x78]), 0x1234_5678);
    assert_ne!(cache_key(1, [0, 0, 0, 0]), cache_key(0, [0xFF, 0xFF, 0xFF, 0xFF]));
    assert_eq!(cache_key(u32::MAX, [0xFF; 4]), u64::MAX);
}
