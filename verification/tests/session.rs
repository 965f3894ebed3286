use platformer::collision::Vector2;
use platformer::game::{Game, TickEvents};
use platformer::level::{LevelIndex, LevelState, Transition};
use platformer::player::{Input, Player, PlayerAnimationState};
use platformer::tilemap::{LoadError, Tile};

// Row 3 holds a floor under the origin; its top is 80 sub-units below the
// player's feet. A door stands in the cell at the origin.
fn levels() -> Vec<Vec<u8>> {
    vec![
        b",,,,\n,,,,\n,,,,\n,,,,110\n,,,1,1,1\n".to_vec(),
        b"1\n".to_vec(),
        b"\n".to_vec(),
    ]
}

fn playing(levels: &Vec<Vec<u8>>) -> Game {
    let mut game = Game::new(levels).unwrap();
    let step = game.advance_fade(levels, 500).unwrap();
    assert_eq!(step.next_state, Some(LevelState::Play));
    game
}

#[test]
fn session_starts_behind_a_black_fader() {
    let levels = levels();
    let game = Game::new(&levels).unwrap();
    assert_eq!(game.state, LevelState::Init);
    assert_eq!(game.level_index, LevelIndex(0, false));
    assert_eq!(game.timer.elapsed_ms, 0);
    assert_eq!(game.fade, 1000);
    assert_eq!(game.player, Player::new());
    assert_eq!(game.camera, Vector2 { x: 0, y: 0 });
    assert_eq!(game.tilemap.tiles.len(), 4);
    assert_eq!(game.tilemap.tiles[0], Tile::new(4, 3, 110));
}

#[test]
fn session_needs_a_first_level() {
    let started = Game::new(&Vec::new());
    assert_eq!(started.err(), Some(LoadError::NoLevelFound { index: 0 }));
}

#[test]
fn nothing_is_simulated_during_a_fade() {
    let levels = levels();
    let mut game = Game::new(&levels).unwrap();
    let events = game.simulate(&Input { right: true, jump: true, restart: true, ..Input::none() });
    assert_eq!(events, TickEvents { jumped: false, switched: false, goal_reached: false });
    assert_eq!(game.player, Player::new());
    assert_eq!(game.state, LevelState::Init);
}

#[test]
fn fade_in_leads_to_play() {
    let levels = levels();
    let mut game = Game::new(&levels).unwrap();
    assert_eq!(game.advance_fade(&levels, 200), Ok(Transition { fade: 1000, next_state: None }));
    assert_eq!(game.advance_fade(&levels, 200), Ok(Transition { fade: 600, next_state: None }));
    assert_eq!(game.fade, 600);
    assert_eq!(game.state, LevelState::Init);
    assert_eq!(game.advance_fade(&levels, 200), Ok(Transition { fade: 0, next_state: Some(LevelState::Play) }));
    assert_eq!(game.state, LevelState::Play);
    assert_eq!(game.fade, 0);
    assert_eq!(game.timer.elapsed_ms, 100);
    assert_eq!(game.advance_fade(&levels, 1000), Ok(Transition { fade: 0, next_state: None }));
    assert_eq!(game.timer.elapsed_ms, 100);
    assert_eq!(game.state, LevelState::Play);
}

#[test]
fn goal_win() {
    let levels = levels();
    let mut game = playing(&levels);
    let events = game.simulate(&Input::none());
    assert!(events.goal_reached);
    assert_eq!(game.level_index, LevelIndex(1, true));
    assert_eq!(game.state, LevelState::End);
    assert_eq!(game.player.position, Vector2 { x: 0, y: -1 });
    assert_eq!(game.camera, Vector2 { x: 0, y: -1 });

    let again = game.simulate(&Input::none());
    assert!(!again.goal_reached);
    assert_eq!(game.level_index, LevelIndex(1, true));
}

#[test]
fn level_end_rebuilds_the_next_level() {
    let levels = levels();
    let mut game = playing(&levels);
    game.simulate(&Input { right: true, ..Input::none() });
    assert_eq!(game.state, LevelState::End);
    assert_eq!(game.advance_fade(&levels, 250), Ok(Transition { fade: 0, next_state: None }));
    assert_eq!(game.advance_fade(&levels, 100), Ok(Transition { fade: 500, next_state: None }));
    let last = game.advance_fade(&levels, 150);
    assert_eq!(last, Ok(Transition { fade: 1000, next_state: Some(LevelState::Init) }));
    assert_eq!(game.state, LevelState::Init);
    assert_eq!(game.fade, 1000);
    assert_eq!(game.level_index, LevelIndex(1, true));
    assert_eq!(game.tilemap.tiles, vec![Tile::new(0, 0, 1)]);
    assert_eq!(game.player.position, Vector2 { x: 10, y: -1 });
    assert_eq!(game.player.velocity, Vector2 { x: 10, y: -1 });
    assert_eq!(game.camera, Vector2 { x: 0, y: 0 });
}

#[test]
fn restart_replays_the_same_level() {
    let levels = vec![b"\n\n\n\n,,,1,1,1\n".to_vec(), b"1".to_vec()];
    let mut game = playing(&levels);
    let events = game.simulate(&Input { restart: true, right: true, ..Input::none() });
    assert_eq!(events, TickEvents { jumped: false, switched: false, goal_reached: false });
    assert_eq!(game.state, LevelState::End);
    assert_eq!(game.level_index, LevelIndex(0, false));
    assert_eq!(game.player.position, Vector2 { x: 10, y: -1 });
    game.advance_fade(&levels, 500).unwrap();
    assert_eq!(game.state, LevelState::Init);
    assert_eq!(game.level_index, LevelIndex(0, false));
    assert_eq!(game.tilemap.tiles.len(), 3);
    assert_eq!(game.player.position, Vector2 { x: 10, y: -1 });
    assert_eq!(game.camera, Vector2 { x: 0, y: 0 });
}

#[test]
fn missing_next_level_fails_the_reload() {
    let levels = vec![b",,,,110".to_vec()];
    let mut game = playing(&levels);
    game.player.position = Vector2 { x: 0, y: 480 };
    assert!(game.simulate(&Input::none()).goal_reached);
    assert_eq!(game.level_index, LevelIndex(1, true));
    assert_eq!(game.advance_fade(&levels, 100), Ok(Transition { fade: 0, next_state: None }));
    let failed = game.advance_fade(&levels, 400);
    assert_eq!(failed, Err(LoadError::NoLevelFound { index: 1 }));
    assert_eq!(game.state, LevelState::End);
    assert_eq!(game.fade, 0);
    assert_eq!(game.tilemap.tiles.len(), 1);
}

#[test]
fn three_wins_cycle_back_to_the_first_level() {
    let door = b",,,,\n,,,,\n,,,,\n,,,,110\n".to_vec();
    let levels = vec![door.clone(), door.clone(), door];
    let mut game = Game::new(&levels).unwrap();
    for n in 1..=7u8 {
        game.advance_fade(&levels, 500).unwrap();
        assert_eq!(game.state, LevelState::Play);
        game.player = Player::new();
        assert!(game.simulate(&Input::none()).goal_reached);
        assert_eq!(game.level_index, LevelIndex(n % 3, true));
        game.advance_fade(&levels, 500).unwrap();
        assert_eq!(game.state, LevelState::Init);
    }
}

#[test]
fn player_falls_lands_and_jumps() {
    let levels = vec![b"\n\n\n\n,,,1,1,1\n".to_vec()];
    let mut game = playing(&levels);
    // The floor's top edge is at y = -80, the player's feet at y = -70.
    let mut ticks = 0;
    while !game.player.can_jump {
        game.simulate(&Input::none());
        ticks += 1;
        assert!(ticks < 100);
    }
    assert_eq!(ticks, 4);
    assert_eq!(game.player.position, Vector2 { x: 0, y: -6 });
    assert_eq!(game.player.velocity, Vector2 { x: 0, y: 0 });
    assert_eq!(game.player.animation_state, PlayerAnimationState::Idle);

    let events = game.simulate(&Input { jump: true, ..Input::none() });
    assert!(events.jumped);
    assert_eq!(game.player.velocity, Vector2 { x: 0, y: 25 });
    assert_eq!(game.player.position, Vector2 { x: 0, y: 19 });
    assert!(!game.player.can_jump);

    let events = game.simulate(&Input { jump: true, ..Input::none() });
    assert!(!events.jumped);
    assert_eq!(game.player.velocity, Vector2 { x: 0, y: 24 });
    assert_eq!(game.state, LevelState::Play);
}

fn fall_until_landed(game: &mut Game) {
    let mut ticks = 0;
    while !game.player.can_jump {
        game.simulate(&Input::none());
        ticks += 1;
        assert!(ticks < 200);
    }
}

#[test]
fn skin_decides_which_colour_carries_the_player() {
    // A yellow floor in row 4, a blue floor two rows below it.
    let levels = vec![b"\n\n\n\n,,,9,9,9\n\n,,,93,93,93\n".to_vec()];
    let mut blue = playing(&levels);
    fall_until_landed(&mut blue);
    assert!(blue.player.position.y < -320);
    assert!(blue.player.position.y > -330);

    let mut yellow = playing(&levels);
    let events = yellow.simulate(&Input { switch_type: true, ..Input::none() });
    assert!(events.switched);
    fall_until_landed(&mut yellow);
    assert!(yellow.player.position.y < 0);
    assert!(yellow.player.position.y > -10);
}
