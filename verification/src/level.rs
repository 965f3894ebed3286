//! The level life cycle: which level is current, and the fade in, play,
//! fade out cycle that leads from one level to the next.

use crate::timer::tick_repeating_timer;
use vstd::prelude::*;

verus! {

/// Length of a fade, in milliseconds.
pub const FADE_DURATION_MS: u32 = 500;

/// Number of levels; the level after the last one is the first.
pub const LEVEL_COUNT: u8 = 3;

/// Opacity of a fully black fader. Opacities are measured in thousandths.
pub const OPAQUE: u16 = 1000;

/// The phase of the level life cycle.
#[derive(Clone, Copy, Debug, PartialEq, Eq, Hash, Structural)]
pub enum LevelState {
    /// The level is being built and the screen fades in.
    Init,
    /// The simulation runs.
    Play,
    /// The level is over and the screen fades out.
    End,
}

impl Default for LevelState {
    fn default() -> (state: LevelState)
        ensures
            state == LevelState::Init,
    {
        LevelState::Init
    }
}

/// Tells whether a fade is in progress in `state`.
pub fn in_transition_state(state: LevelState) -> (fading: bool)
    ensures
        fading == (state != LevelState::Play),
{
    match state {
        LevelState::End => true,
        LevelState::Init => true,
        _ => false,
    }
}

/// Marks an entity that is torn down when the level ends.
#[derive(Clone, Copy, Debug, PartialEq, Eq, Structural)]
pub struct Despawnable {
    pub has_children: bool,
}

/// How an entity marked [`Despawnable`] is torn down.
#[derive(Clone, Copy, Debug, PartialEq, Eq, Structural)]
pub enum Teardown {
    /// The entity alone.
    Single,
    /// The entity and everything below it.
    Recursive,
}

impl Despawnable {
    pub fn with_children(has_children: bool) -> (tag: Despawnable)
        ensures
            tag.has_children == has_children,
    {
        Despawnable { has_children }
    }

    /// The teardown that the tag asks for.
    pub fn teardown(&self) -> (kind: Teardown)
        ensures
            kind == (if self.has_children {
                Teardown::Recursive
            } else {
                Teardown::Single
            }),
    {
        if self.has_children {
            Teardown::Recursive
        } else {
            Teardown::Single
        }
    }
}

impl Default for Despawnable {
    fn default() -> (tag: Despawnable)
        ensures
            !tag.has_children,
    {
        Despawnable { has_children: false }
    }
}

/// The current level, and whether any level has been completed yet.
#[derive(Clone, Copy, Debug, PartialEq, Eq, Structural)]
pub struct LevelIndex(pub u8, pub bool);

impl LevelIndex {
    /// The index names one of the `LEVEL_COUNT` levels.
    pub open spec fn wf(self) -> bool {
        self.0 < LEVEL_COUNT
    }

    /// The index after one completed level.
    pub open spec fn next(self) -> LevelIndex {
        LevelIndex(((self.0 + 1) % (LEVEL_COUNT as int)) as u8, true)
    }

    /// The index after `n` completed levels.
    pub open spec fn advanced(self, n: nat) -> LevelIndex
        decreases n,
    {
        if n == 0 {
            self
        } else {
            self.advanced((n - 1) as nat).next()
        }
    }

    /// The tutorial is due on the first level as long as no level has been
    /// completed.
    pub open spec fn tutorial_due(self) -> bool {
        self.0 == 0 && !self.1
    }

    pub fn to_next_level(&mut self)
        ensures
            *final(self) == old(self).next(),
            final(self).wf(),
    {
        let following: u16 = (self.0 as u16 + 1) % (LEVEL_COUNT as u16);
        self.0 = following as u8;
        self.1 = true;
    }

    pub fn shows_tutorial(&self) -> (due: bool)
        ensures
            due == self.tutorial_due(),
    {
        self.0 == 0 && !self.1
    }
}

impl Default for LevelIndex {
    fn default() -> (index: LevelIndex)
        ensures
            index == LevelIndex(0, false),
            index.wf(),
    {
        LevelIndex(0, false)
    }
}

/// The repeating timer that paces the fades. It keeps the time elapsed
/// since it last ran out, which is short of a full fade once the timer
/// has been through a step.
#[derive(Clone, Copy, Debug, PartialEq, Eq, Structural)]
pub struct LevelTransitionTimer {
    pub elapsed_ms: u32,
}

impl LevelTransitionTimer {
    /// The time on the timer is short of a full fade.
    pub open spec fn wf(self) -> bool {
        self.elapsed_ms < FADE_DURATION_MS
    }

    pub fn new() -> (timer: LevelTransitionTimer)
        ensures
            timer.elapsed_ms == 0,
            timer.wf(),
    {
        LevelTransitionTimer { elapsed_ms: 0 }
    }
}

/// What one step of a fade shows and decides.
#[derive(Clone, Copy, Debug, PartialEq, Eq, Structural)]
pub struct Transition {
    /// Opacity of the black fader, in thousandths.
    pub fade: u16,
    /// The state to enter, where the fade has run out.
    pub next_state: Option<LevelState>,
}

/// The share of a fade that has passed after `elapsed_ms`, in thousandths.
pub open spec fn elapsed_share(elapsed_ms: u32) -> int {
    elapsed_ms * (OPAQUE as int) / (FADE_DURATION_MS as int)
}

/// Opacity while a fade that has not run out is `elapsed_ms` old: none
/// while playing, falling from black on the way in, rising to black on
/// the way out.
pub open spec fn fade_during(state: LevelState, elapsed_ms: u32) -> int {
    match state {
        LevelState::Init => OPAQUE - elapsed_share(elapsed_ms),
        LevelState::Play => 0,
        LevelState::End => elapsed_share(elapsed_ms),
    }
}

/// Opacity that a fade ends on.
pub open spec fn fade_after(state: LevelState) -> int {
    match state {
        LevelState::End => OPAQUE as int,
        _ => 0,
    }
}

/// The state that follows `state` in the cycle.
pub open spec fn following_state(state: LevelState) -> LevelState {
    match state {
        LevelState::Init => LevelState::Play,
        LevelState::Play => LevelState::End,
        LevelState::End => LevelState::Init,
    }
}

/// The fade has run out once `delta_ms` more have passed.
pub open spec fn fade_done(timer: LevelTransitionTimer, delta_ms: u32) -> bool {
    timer.elapsed_ms + delta_ms >= FADE_DURATION_MS
}

/// The step that [`level_transition`] takes.
pub open spec fn transition_of(state: LevelState, timer: LevelTransitionTimer, delta_ms: u32) -> Transition {
    if state == LevelState::Play {
        Transition { fade: 0, next_state: None }
    } else if fade_done(timer, delta_ms) {
        Transition { fade: fade_after(state) as u16, next_state: Some(following_state(state)) }
    } else {
        Transition { fade: fade_during(state, timer.elapsed_ms) as u16, next_state: None }
    }
}

/// The timer after the step that [`level_transition`] takes.
pub open spec fn timer_after(state: LevelState, timer: LevelTransitionTimer, delta_ms: u32) -> LevelTransitionTimer {
    if state == LevelState::Play {
        timer
    } else {
        LevelTransitionTimer {
            elapsed_ms: ((timer.elapsed_ms + delta_ms) % (FADE_DURATION_MS as int)) as u32,
        }
    }
}

/// Advances the fade of `state` by `delta_ms`. While playing nothing
/// fades and the timer rests. Otherwise the fader shows the share of the
/// fade that had passed before this step, and once the timer runs out it
/// shows the end of the fade and the next state is due.
pub fn level_transition(state: LevelState, timer: &mut LevelTransitionTimer, delta_ms: u32) -> (step: Transition)
    ensures
        step == transition_of(state, *old(timer), delta_ms),
        *final(timer) == timer_after(state, *old(timer), delta_ms),
        state != LevelState::Play ==> final(timer).wf(),
        step.fade <= OPAQUE,
{
    if !in_transition_state(state) {
        return Transition { fade: 0, next_state: None };
    }
    let before = timer.elapsed_ms;
    let after = tick_repeating_timer(FADE_DURATION_MS, before, delta_ms);
    timer.elapsed_ms = after.0;
    if after.1 {
        match state {
            LevelState::End => Transition { fade: OPAQUE, next_state: Some(LevelState::Init) },
            _ => Transition { fade: 0, next_state: Some(LevelState::Play) },
        }
    } else {
        let share: u32 = before * (OPAQUE as u32) / FADE_DURATION_MS;
        assert(share <= 999) by {
            assert(before * 1000 <= 499 * 1000);
        }
        match state {
            LevelState::End => Transition { fade: share as u16, next_state: None },
            _ => Transition { fade: OPAQUE - (share as u16), next_state: None },
        }
    }
}

} // verus!
