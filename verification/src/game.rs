//! The whole game as one value, and the two steps that drive it: the
//! simulation tick, at a fixed rate, and the fade step, once per frame.

use crate::collision::Vector2;
use crate::level::{
    level_transition, transition_of, timer_after, LevelIndex, LevelState, LevelTransitionTimer, Transition,
    OPAQUE,
};
use crate::player::{camera_follow, check_goal_reached, handle_player_input, hits, move_player, Input, Player};
use crate::tilemap::{level_tiles, load_level, LoadError, Tilemap};
use vstd::prelude::*;

verus! {

/// What a simulation tick let happen, for whoever plays sounds.
#[derive(Clone, Copy, Debug, PartialEq, Eq, Structural)]
pub struct TickEvents {
    pub jumped: bool,
    pub switched: bool,
    pub goal_reached: bool,
}

/// Everything that a session holds. Each field is written by one step
/// only: the player and the level index by the simulation tick, the
/// geometry, the timer and the fader by the fade step. The camera follows
/// the player in the simulation tick and is reset by the fade step.
#[derive(Debug)]
pub struct Game {
    pub state: LevelState,
    pub level_index: LevelIndex,
    pub timer: LevelTransitionTimer,
    /// Opacity of the black fader, in thousandths.
    pub fade: u16,
    pub player: Player,
    /// The level-scoped entities; a reload replaces them all.
    pub tilemap: Tilemap,
    pub camera: Vector2,
}

impl Game {
    /// The player after the simulation tick that `input` drives.
    pub open spec fn played(self, input: Input) -> Player {
        self.player.after_input(input).moved(self.tilemap.bodies())
    }

    /// The player of [`Game::played`] meets a goal of the level.
    pub open spec fn wins(self, input: Input) -> bool {
        hits(self.played(input).bounds(), self.tilemap.goal_seq())
    }

    /// The fade step of `delta_ms` ends the fade out, so that the level
    /// is torn down and the current one is built.
    pub open spec fn reloads(self, delta_ms: u32) -> bool {
        transition_of(self.state, self.timer, delta_ms).next_state == Some(LevelState::Init)
    }

    /// A session at its start: the first level is built, behind a black
    /// fader. Fails where there is no first level.
    pub fn new(levels: &Vec<Vec<u8>>) -> (started: Result<Game, LoadError>)
        ensures
            levels.len() == 0 ==> started is Err && started->Err_0 == (LoadError::NoLevelFound { index: 0 }),
            levels.len() > 0 ==> started is Ok && ({
                let game = started->Ok_0;
                &&& game.state == LevelState::Init
                &&& game.level_index == LevelIndex(0, false)
                &&& game.timer.elapsed_ms == 0
                &&& game.fade == OPAQUE
                &&& game.player == Player::initial()
                &&& game.tilemap.tiles@ == level_tiles(levels@[0]@)
                &&& game.camera == (Vector2 { x: 0, y: 0 })
            }),
    {
        let level_index = LevelIndex(0, false);
        match load_level(levels, &level_index) {
            Ok(tilemap) => Ok(
                Game {
                    state: LevelState::Init,
                    level_index,
                    timer: LevelTransitionTimer::new(),
                    fade: OPAQUE,
                    player: Player::new(),
                    tilemap,
                    camera: Vector2 { x: 0, y: 0 },
                },
            ),
            Err(e) => Err(e),
        }
    }

    /// One simulation tick. Outside play nothing happens. In play the
    /// input steers the player, the player moves among the tiles, the
    /// camera follows, and the goal check runs at the new place: a goal
    /// moves the level index on and ends the level, a restart ends the
    /// level and leaves the index alone.
    pub fn simulate(&mut self, input: &Input) -> (events: TickEvents)
        ensures
            final(self).tilemap == old(self).tilemap,
            final(self).timer == old(self).timer,
            final(self).fade == old(self).fade,
            old(self).state != LevelState::Play ==> {
                &&& final(self).state == old(self).state
                &&& final(self).player == old(self).player
                &&& final(self).level_index == old(self).level_index
                &&& final(self).camera == old(self).camera
                &&& events == (TickEvents { jumped: false, switched: false, goal_reached: false })
            },
            old(self).state == LevelState::Play ==> {
                &&& final(self).player == old(self).played(*input)
                &&& final(self).camera == final(self).player.position
                &&& final(self).level_index == (if old(self).wins(*input) {
                    old(self).level_index.next()
                } else {
                    old(self).level_index
                })
                &&& final(self).state == (if old(self).wins(*input) || input.restart {
                    LevelState::End
                } else {
                    LevelState::Play
                })
                &&& events == (TickEvents {
                    jumped: old(self).player.jumps(*input),
                    switched: input.switch_type,
                    goal_reached: old(self).wins(*input),
                })
            },
    {
        if self.state != LevelState::Play {
            return TickEvents { jumped: false, switched: false, goal_reached: false };
        }
        let input_events = handle_player_input(&mut self.player, input);
        let colliders = self.tilemap.colliders();
        move_player(&mut self.player, &colliders);
        self.camera = camera_follow(&self.player);

        let goals = self.tilemap.goals();
        let goal_reached = check_goal_reached(&self.player, &goals, &mut self.state, &mut self.level_index);
        if input_events.restart {
            self.state = LevelState::End;
        }
        TickEvents { jumped: input_events.jumped, switched: input_events.switched, goal_reached }
    }

    /// One step of the fade. The timer moves on by `delta_ms` and the
    /// fader shows what [`transition_of`] gives. Where a fade runs out
    /// the next state is entered; at the end of the fade out the level is
    /// torn down, the current one is built from `levels` and the camera
    /// returns to the origin. The player outlives the level as it is.
    /// Fails, with nothing but the timer changed, where the current level
    /// has no text.
    pub fn advance_fade(&mut self, levels: &Vec<Vec<u8>>, delta_ms: u32) -> (outcome: Result<Transition, LoadError>)
        ensures
            final(self).timer == timer_after(old(self).state, old(self).timer, delta_ms),
            final(self).level_index == old(self).level_index,
            final(self).player == old(self).player,
            outcome is Err <==> old(self).reloads(delta_ms) && old(self).level_index.0 >= levels.len(),
            outcome is Err ==> {
                &&& outcome->Err_0 == (LoadError::NoLevelFound { index: old(self).level_index.0 })
                &&& final(self).state == old(self).state
                &&& final(self).fade == old(self).fade
            },
            outcome is Ok ==> {
                &&& outcome->Ok_0 == transition_of(old(self).state, old(self).timer, delta_ms)
                &&& final(self).fade == outcome->Ok_0.fade
                &&& final(self).state == (match outcome->Ok_0.next_state {
                    Some(next) => next,
                    None => old(self).state,
                })
            },
            outcome is Ok && old(self).reloads(delta_ms) ==> {
                &&& final(self).tilemap.tiles@ == level_tiles(levels@[old(self).level_index.0 as int]@)
                &&& final(self).camera == (Vector2 { x: 0, y: 0 })
            },
            !(outcome is Ok && old(self).reloads(delta_ms)) ==> {
                &&& final(self).tilemap == old(self).tilemap
                &&& final(self).camera == old(self).camera
            },
    {
        let step = level_transition(self.state, &mut self.timer, delta_ms);
        match step.next_state {
            Some(LevelState::Init) => {
                match load_level(levels, &self.level_index) {
                    Ok(tilemap) => {
                        self.tilemap = tilemap;
                        self.camera = Vector2 { x: 0, y: 0 };
                    },
                    Err(e) => {
                        return Err(e);
                    },
                }
                self.state = LevelState::Init;
            },
            Some(next) => {
                self.state = next;
            },
            None => {},
        }
        self.fade = step.fade;
        Ok(step)
    }
}

} // verus!
