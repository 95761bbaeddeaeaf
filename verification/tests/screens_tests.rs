use minds_eye::{
    decode_level, Color, GameInput, GameState, HelpState, CreditsState, LevelSelectState,
    MenuInput, MoveInput, Screen, SoundEffect, StartMenuState, TileTexture, Transition,
};

fn no_keys() -> MenuInput {
    MenuInput { up: false, down: false, left: false, right: false, enter: false, back: false }
}

fn press_enter() -> MenuInput {
    MenuInput { enter: true, ..no_keys() }
}

fn idle_game(elapsed: u64) -> GameInput {
    GameInput {
        reset: false,
        quit: false,
        enter: false,
        held: MoveInput { left: false, right: false, up: false, down: false },
        elapsed_seconds: elapsed,
    }
}

#[test]
fn enter_on_help_option_opens_help_and_returns_there() {
    // Start menu with the Help option selected: Enter opens Help, and Enter
    // on Help returns to the start menu with the selection restored.
    let mut menu = StartMenuState::new(1);
    let out = menu.update(&press_enter());
    assert_eq!(out.transition, Some(Transition::ToHelp));
    assert_eq!(out.sounds, vec![SoundEffect::Enter]);

    let mut help = HelpState::new();
    let back = help.update(&press_enter());
    assert_eq!(back.transition, Some(Transition::ToStartMenu(1)));
    assert_eq!(back.sounds, vec![SoundEffect::Back]);

    let restored = match back.transition {
        Some(Transition::ToStartMenu(sel)) => StartMenuState::new(sel),
        _ => unreachable!(),
    };
    assert_eq!(restored.selected_option, 1);
}

#[test]
fn credits_returns_with_its_own_option() {
    let mut menu = StartMenuState::new(2);
    let out = menu.update(&press_enter());
    assert_eq!(out.transition, Some(Transition::ToCredits));
    let mut credits = CreditsState::new();
    let back = credits.update(&press_enter());
    assert_eq!(back.transition, Some(Transition::ToStartMenu(2)));
}

#[test]
fn menu_selection_wraps_both_ways() {
    let mut menu = StartMenuState::new(2);
    let out = menu.update(&MenuInput { down: true, ..no_keys() });
    assert_eq!(menu.selected_option, 0);
    assert_eq!(out.sounds, vec![SoundEffect::Select]);
    menu.update(&MenuInput { up: true, ..no_keys() });
    assert_eq!(menu.selected_option, 2);
    let quiet = menu.update(&no_keys());
    assert_eq!(menu.selected_option, 2);
    assert!(quiet.sounds.is_empty());
    assert_eq!(quiet.transition, None);
}

#[test]
fn menu_play_option_opens_level_select() {
    let mut menu = StartMenuState::new(0);
    let out = menu.update(&press_enter());
    assert_eq!(out.transition, Some(Transition::ToLevelSelect(0)));
}

#[test]
fn menu_swaps_the_showcase_block_on_selection_change() {
    let mut menu = StartMenuState::new(0);
    menu.on_enter();
    assert_eq!(menu.eyes.len(), 3);
    assert_eq!(menu.tiles.len(), 1);
    assert_eq!(menu.tiles[0].texture, TileTexture::Block(Color::Blue));
    menu.update(&MenuInput { down: true, ..no_keys() });
    assert_eq!(menu.tiles.len(), 1);
    assert_eq!(menu.tiles[0].texture, TileTexture::Block(Color::Green));
    assert_eq!((menu.tiles[0].targetx, menu.tiles[0].targety), (200, 500));
}

#[test]
fn menu_on_exit_releases_entities() {
    let mut menu = StartMenuState::new(0);
    menu.on_enter();
    menu.on_exit();
    assert!(menu.eyes.is_empty());
    assert!(menu.tiles.is_empty());
}

#[test]
fn level_select_cycles_through_entries() {
    let mut ls = LevelSelectState::new(0, 5);
    ls.update(&MenuInput { down: true, ..no_keys() });
    assert_eq!(ls.selected_option, 1);
    for _ in 0..4 {
        ls.update(&MenuInput { down: true, ..no_keys() });
    }
    // Wrapped past the last entry.
    assert_eq!(ls.selected_option, 0);
    ls.update(&MenuInput { up: true, ..no_keys() });
    assert_eq!(ls.selected_option, 4);
}

#[test]
fn level_select_back_pseudo_option() {
    let mut ls = LevelSelectState::new(2, 5);
    ls.update(&MenuInput { left: true, ..no_keys() });
    assert_eq!(ls.selected_option, -1);
    let out = ls.update(&press_enter());
    assert_eq!(out.transition, Some(Transition::ToStartMenu(0)));
    assert_eq!(out.sounds, vec![SoundEffect::Back]);

    let mut ls2 = LevelSelectState::new(-1, 5);
    ls2.update(&MenuInput { right: true, ..no_keys() });
    assert_eq!(ls2.selected_option, 0);
}

#[test]
fn level_select_b_key_goes_straight_back() {
    let mut ls = LevelSelectState::new(3, 5);
    let out = ls.update(&MenuInput { back: true, ..no_keys() });
    assert_eq!(out.transition, Some(Transition::ToStartMenu(0)));
    assert!(out.sounds.is_empty());
    assert_eq!(ls.selected_option, 3);
}

#[test]
fn level_select_enter_starts_the_chosen_level() {
    let mut ls = LevelSelectState::new(2, 5);
    let out = ls.update(&press_enter());
    assert_eq!(out.transition, Some(Transition::ToGame(2)));
    assert_eq!(out.sounds, vec![SoundEffect::Enter]);
}

#[test]
fn game_quit_returns_to_level_select_untouched() {
    let lvl = decode_level(b"T\nRb\n", false);
    let mut game = GameState::new(lvl);
    game.on_enter();
    let before_tiles = game.tiles.clone();
    let out = game.update(&GameInput { quit: true, ..idle_game(3) });
    assert_eq!(out.transition, Some(Transition::ToLevelSelect(0)));
    assert!(out.sounds.is_empty());
    assert_eq!(game.tiles, before_tiles);
    assert!(!game.won);
}

#[test]
fn unsolved_game_runs_physics_and_keeps_time_open() {
    // A red eye with only a blue block beside it stays unsolved, so the
    // player moves.
    let lvl = decode_level(b"T\nRb\n", false);
    let mut game = GameState::new(lvl);
    game.on_enter();
    let out = game.update(&GameInput {
        held: MoveInput { left: false, right: true, up: false, down: false },
        ..idle_game(3)
    });
    assert_eq!(out.transition, None);
    assert!(!game.won);
    assert_eq!(game.player.x, 3);
    assert_eq!(game.player.velx, 0);
    assert_eq!(game.captured_time, None);
    assert!(!game.eyes[0].solved);
}

#[test]
fn solved_game_captures_the_time_once_and_enter_leaves() {
    // A red block standing left of a red eye solves it immediately.
    let lvl = decode_level(b"T\nrR\n", false);
    let mut game = GameState::new(lvl);
    game.on_enter();
    let out = game.update(&idle_game(7));
    assert_eq!(out.transition, None);
    assert!(game.won);
    assert!(game.eyes[0].solved);
    assert_eq!(game.captured_time, Some(7));

    // Idempotent: a later frame does not overwrite the captured time.
    game.update(&idle_game(99));
    assert_eq!(game.captured_time, Some(7));

    let leave = game.update(&GameInput { enter: true, ..idle_game(100) });
    assert_eq!(leave.transition, Some(Transition::ToLevelSelect(0)));
}

#[test]
fn game_reset_rebuilds_the_world_from_the_level() {
    // The lone red eye stays unsolved, so the player physics runs.
    let lvl = decode_level(b"T\np R\n", false);
    let mut game = GameState::new(lvl);
    game.on_enter();
    assert_eq!((game.player.x, game.player.y), (24, 11));
    game.update(&GameInput {
        held: MoveInput { left: false, right: true, up: false, down: false },
        ..idle_game(1)
    });
    assert_eq!(game.player.x, 27);
    game.update(&GameInput { reset: true, ..idle_game(2) });
    assert_eq!((game.player.x, game.player.y), (24, 11));
}

#[test]
fn game_counts_committed_block_moves() {
    // A block exactly one tile from its target reports one move.
    let lvl = decode_level(b"T\nb\n", false);
    let mut game = GameState::new(lvl);
    game.on_enter();
    game.tiles[1].targetx = game.tiles[1].x + 64;
    let out = game.update(&idle_game(0));
    assert_eq!(game.moves, 1);
    // The block started moving this frame: one push sound fired.
    assert_eq!(out.sounds, vec![SoundEffect::Push]);
    assert_eq!(game.tiles[1].x, 13);
}

#[test]
fn screen_names_match_their_variants() {
    let lvl = decode_level(b"T\n", false);
    assert_eq!(Screen::StartMenu(StartMenuState::new(0)).get_name(), "start_menu");
    assert_eq!(Screen::LevelSelect(LevelSelectState::new(0, 1)).get_name(), "level_select");
    assert_eq!(Screen::Game(GameState::new(lvl)).get_name(), "game");
    assert_eq!(Screen::Help(HelpState::new()).get_name(), "help");
    assert_eq!(Screen::Credits(CreditsState::new()).get_name(), "credits");
}
