//! The phases of the game and what leads from one to the next.

use vstd::prelude::*;
use crate::battle::Level;
use crate::battle_report::{LevelReward, ReportEffect};
use crate::sheep::{is_fresh, spawn_n_sheep, SheepUnit, COUNT_INIT_SHEEP};

verus! {

/// The phase the game is in.
#[derive(Clone, Copy, Debug, PartialEq, Eq, Hash, Structural)]
pub enum GameState {
    MainMenu,
    Herding,
    Battle,
    BattleReport,
    Paused,
}

/// The level a new game is played on.
pub const NEW_GAME_LEVEL: usize = 4;

/// What the keys ask for while the flock is herded.
#[derive(Clone, Copy, Debug, PartialEq, Eq, Structural)]
pub struct HerdingInput {
    /// The phase to go to, if any.
    pub next: Option<GameState>,
    /// The flock is to be given up for a new game.
    pub new_game: bool,
}

/// Reads the keys of the herding phase: the key for a new game starts the
/// phase over with a new flock, and else the space bar starts the battle.
pub fn herding_input(space_released: bool, new_game_released: bool) -> (input: HerdingInput)
    ensures
        input.new_game == new_game_released,
        input.next == if new_game_released {
            Some(GameState::Herding)
        } else if space_released {
            Some(GameState::Battle)
        } else {
            None
        },
{
    HerdingInput {
        next: if new_game_released {
            Some(GameState::Herding)
        } else if space_released {
            Some(GameState::Battle)
        } else {
            None
        },
        new_game: new_game_released,
    }
}

/// Reads the keys of the report: the space bar leads back to herding.
pub fn report_input(space_released: bool) -> (next: Option<GameState>)
    ensures
        next == if space_released {
            Some(GameState::Herding)
        } else {
            None::<GameState>
        },
{
    if space_released {
        Some(GameState::Herding)
    } else {
        None
    }
}

/// Starts the game over: the old flock is given up for a new one of fresh
/// sheep, and the level is set to that of a new game.
pub fn init_new_game(flock: &mut Vec<SheepUnit>, level: &mut Level)
    ensures
        final(flock)@.len() == COUNT_INIT_SHEEP,
        forall|i: int| 0 <= i < final(flock)@.len() ==> is_fresh(#[trigger] final(flock)@[i]),
        *final(level) == Level(NEW_GAME_LEVEL),
{
    *flock = spawn_n_sheep(COUNT_INIT_SHEEP);
    *level = Level(NEW_GAME_LEVEL);
}

/// Adds the sheep of a reward to the flock: the flock stays as it is, and
/// as many fresh sheep as the reward says come after it.
pub fn add_level_reward_sheep(flock: &mut Vec<SheepUnit>, reward: LevelReward)
    ensures
        final(flock)@.len() == old(flock)@.len() + reward.0,
        final(flock)@.take(old(flock)@.len() as int) == old(flock)@,
        forall|i: int| old(flock)@.len() <= i < final(flock)@.len() ==> is_fresh(#[trigger] final(flock)@[i]),
{
    let ghost before = flock@;
    let gained = spawn_n_sheep(reward.0);
    let mut i: usize = 0;
    while i < gained.len()
        invariant
            0 <= i <= gained.len(),
            flock@.len() == before.len() + i,
            flock@.take(before.len() as int) == before,
            forall|j: int| 0 <= j < gained@.len() ==> is_fresh(#[trigger] gained@[j]),
            forall|j: int| before.len() <= j < flock@.len() ==> is_fresh(#[trigger] flock@[j]),
        decreases gained.len() - i,
    {
        let ghost prev = flock@;
        flock.push(gained[i]);
        assert(flock@.take(before.len() as int) =~= prev.take(before.len() as int));
        i += 1;
    }
}

/// Enters the herding phase with what the last report has left: a reset
/// starts a new game, a reward adds its sheep, and without either the flock
/// and the level stay as they are.
pub fn enter_herding(effect: ReportEffect, flock: &mut Vec<SheepUnit>, level: &mut Level)
    ensures
        match effect {
            ReportEffect::Nothing => final(flock)@ == old(flock)@ && *final(level) == *old(level),
            ReportEffect::Reward(reward) => {
                &&& *final(level) == *old(level)
                &&& final(flock)@.len() == old(flock)@.len() + reward.0
                &&& final(flock)@.take(old(flock)@.len() as int) == old(flock)@
                &&& forall|i: int|
                    old(flock)@.len() <= i < final(flock)@.len() ==> is_fresh(#[trigger] final(flock)@[i])
            },
            ReportEffect::Reset(_) => {
                &&& *final(level) == Level(NEW_GAME_LEVEL)
                &&& final(flock)@.len() == COUNT_INIT_SHEEP
                &&& forall|i: int| 0 <= i < final(flock)@.len() ==> is_fresh(#[trigger] final(flock)@[i])
            },
        },
{
    match effect {
        ReportEffect::Nothing => {},
        ReportEffect::Reward(reward) => add_level_reward_sheep(flock, reward),
        ReportEffect::Reset(_) => init_new_game(flock, level),
    }
}

} // verus!
