//! How a round ended, and what follows from it for the next herding phase.

use vstd::prelude::*;

verus! {

/// The outcome of a round.
#[derive(Clone, Copy, Debug, PartialEq, Eq, Structural)]
pub enum BattleStatus {
    StillPlaying,
    Victory,
    GameOver,
    Draw,
}

impl Default for BattleStatus {
    fn default() -> (s: BattleStatus)
        ensures
            s == BattleStatus::StillPlaying,
    {
        BattleStatus::StillPlaying
    }
}

/// The summary of a round for the report screen.
#[derive(Clone, Copy, Debug, PartialEq, Eq, Structural)]
pub struct BattleResult {
    pub battle_status: BattleStatus,
    pub war_machines_slain: usize,
    pub sheep_slain: usize,
    pub level_reward_sheep_gained: usize,
}

impl Default for BattleResult {
    fn default() -> (r: BattleResult)
        ensures
            r == (BattleResult {
                battle_status: BattleStatus::StillPlaying,
                war_machines_slain: 0,
                sheep_slain: 0,
                level_reward_sheep_gained: 0,
            }),
    {
        BattleResult {
            battle_status: BattleStatus::StillPlaying,
            war_machines_slain: 0,
            sheep_slain: 0,
            level_reward_sheep_gained: 0,
        }
    }
}

/// While this is pending, `.0` many sheep are to be added to the pen.
#[derive(Clone, Copy, Debug, PartialEq, Eq, Structural)]
pub struct LevelReward(pub usize);

/// While this is pending, the next herding phase starts the game over.
#[derive(Clone, Copy, Debug, PartialEq, Eq, Structural)]
pub struct NewGame;

/// What the report leaves for the herding phase that follows it. Each is
/// consumed once.
#[derive(Clone, Copy, Debug, PartialEq, Eq, Structural)]
pub enum ReportEffect {
    Nothing,
    Reward(LevelReward),
    Reset(NewGame),
}

/// The character of one decimal digit.
pub open spec fn digit(d: nat) -> char {
    if d == 0 {
        '0'
    } else if d == 1 {
        '1'
    } else if d == 2 {
        '2'
    } else if d == 3 {
        '3'
    } else if d == 4 {
        '4'
    } else if d == 5 {
        '5'
    } else if d == 6 {
        '6'
    } else if d == 7 {
        '7'
    } else if d == 8 {
        '8'
    } else {
        '9'
    }
}

/// A count written in decimal digits, the highest first, without a sign and
/// without leading zeros.
pub open spec fn decimal(n: nat) -> Seq<char>
    decreases n,
{
    if n < 10 {
        seq![digit(n)]
    } else {
        decimal(n / 10).push(digit(n % 10))
    }
}

/// Writes a count with `ToString::to_string` of `usize`.
///
/// Believed, not proved: the text is the count in decimal digits.
#[verifier::external_body]
fn count_text(n: usize) -> (text: String)
    ensures
        text@ == decimal(n as nat),
{
    n.to_string()
}

/// Joins three pieces of text with `concat` of a slice of `str`.
///
/// Believed, not proved: the text is the three pieces one after the other.
#[verifier::external_body]
fn joined(head: &str, middle: &str, tail: &str) -> (text: String)
    ensures
        text@ == head@ + middle@ + tail@,
{
    [head, middle, tail].concat()
}

impl BattleResult {
    /// The text of the report screen, by the outcome; after a victory it
    /// names the reward.
    pub open spec fn status_text_spec(&self) -> Seq<char> {
        match self.battle_status {
            BattleStatus::Victory => "            You won!\n\n  Baaaa bye angry war machines!\n\n\n       You gain "@
                + decimal(self.level_reward_sheep_gained as nat)
                + " new sheep!\n\n\n     Press SPACE to continue."@,
            BattleStatus::GameOver => "           Game over! :(\n\n\n   Press SPACE to start a new game!"@,
            BattleStatus::Draw => "           Time ran out!\n\nYou can face the war machines again\n  until all of your sheep are gone!\n\n\n     Press SPACE to continue."@,
            BattleStatus::StillPlaying => "Something unexpected happen. You should still be playing the game!"@,
        }
    }

    /// Return the final text depending on the outcome.
    pub fn status_text(&self) -> (text: String)
        ensures
            text@ == self.status_text_spec(),
    {
        match self.battle_status {
            BattleStatus::Victory => {
                let count = count_text(self.level_reward_sheep_gained);
                joined(
                    "            You won!\n\n  Baaaa bye angry war machines!\n\n\n       You gain ",
                    count.as_str(),
                    " new sheep!\n\n\n     Press SPACE to continue.",
                )
            },
            BattleStatus::GameOver => "           Game over! :(\n\n\n   Press SPACE to start a new game!".to_owned(),
            BattleStatus::Draw => "           Time ran out!\n\nYou can face the war machines again\n  until all of your sheep are gone!\n\n\n     Press SPACE to continue.".to_owned(),
            BattleStatus::StillPlaying => "Something unexpected happen. You should still be playing the game!".to_owned(),
        }
    }

    /// A victory leaves its reward, a lost game a reset, anything else
    /// nothing.
    pub open spec fn report_effect_spec(&self) -> ReportEffect {
        match self.battle_status {
            BattleStatus::Victory => ReportEffect::Reward(LevelReward(self.level_reward_sheep_gained)),
            BattleStatus::GameOver => ReportEffect::Reset(NewGame),
            _ => ReportEffect::Nothing,
        }
    }

    /// What the report screen queues for the next herding phase.
    pub fn report_effect(&self) -> (e: ReportEffect)
        ensures
            e == self.report_effect_spec(),
    {
        match self.battle_status {
            BattleStatus::Victory => ReportEffect::Reward(LevelReward(self.level_reward_sheep_gained)),
            BattleStatus::GameOver => ReportEffect::Reset(NewGame),
            _ => ReportEffect::Nothing,
        }
    }

    /// The round is over.
    pub fn is_decided(&self) -> (r: bool)
        ensures
            r == (self.battle_status != BattleStatus::StillPlaying),
    {
        match self.battle_status {
            BattleStatus::StillPlaying => false,
            _ => true,
        }
    }
}

} // verus!
