//! One timed round of battle between the flock and the war machines.

pub mod states;
pub mod war_machines;
pub mod episodes;

use vstd::prelude::*;
use crate::battle::states::CreatureState;
use crate::battle::war_machines::{
    dying_applied, moved, new_war_machine, step_spec, stepped, Action, WarMachine,
};
use crate::battle_report::{BattleResult, BattleStatus, LevelReward, ReportEffect};
use crate::geometry::{is_within, positions_of, within, Point};
use crate::random::random_between;
use crate::targeting::{lemma_nearest_properties, nearest, nearest_within};
use crate::utils::{Attack, BehaviourType, Bounds, Creature, Health, Speed};

verus! {

/// The battlefield, lowest and highest coordinate per axis.
pub const BATTLEFIELD_BOUNDS_X: (i32, i32) = (-6200, 6200);

pub const BATTLEFIELD_BOUNDS_Y: (i32, i32) = (-6400, 7000);

/// The length of a round in milliseconds.
pub const DEFAULT_ROUND_TIME: u64 = 15000;

/// The number of the level that is played.
#[derive(Clone, Copy, Debug, PartialEq, Eq, Structural)]
pub struct Level(pub usize);

/// The clock of a round, in milliseconds. It counts up to its duration,
/// once, and stops there.
#[derive(Clone, Copy, Debug, PartialEq, Eq, Structural)]
pub struct BattleTimer {
    pub duration: u64,
    pub elapsed: u64,
    /// The timer has run out.
    pub finished: bool,
    /// The timer ran out in the last tick.
    pub just_finished: bool,
}

impl BattleTimer {
    /// The timer never runs past its duration, and has run out only at its
    /// end.
    pub open spec fn wf(&self) -> bool {
        &&& self.elapsed <= self.duration
        &&& self.finished ==> self.elapsed == self.duration
        &&& self.just_finished ==> self.finished
    }

    /// A timer that has not started.
    pub open spec fn fresh(duration: u64) -> BattleTimer {
        BattleTimer { duration, elapsed: 0, finished: false, just_finished: false }
    }

    /// The timer after a tick of `delta` milliseconds. A timer that has run
    /// out stays as it is; any other runs out as soon as the time on it
    /// reaches its duration.
    pub open spec fn ticked(self, delta: u64) -> BattleTimer {
        if self.finished {
            BattleTimer { just_finished: false, ..self }
        } else if self.elapsed + delta >= self.duration {
            BattleTimer { elapsed: self.duration, finished: true, just_finished: true, ..self }
        } else {
            BattleTimer { elapsed: (self.elapsed + delta) as u64, ..self }
        }
    }

    /// A fresh timer of `duration` milliseconds.
    pub fn new(duration: u64) -> (t: BattleTimer)
        ensures
            t == BattleTimer::fresh(duration),
            t.wf(),
    {
        BattleTimer { duration, elapsed: 0, finished: false, just_finished: false }
    }

    /// Advances the timer by `delta` milliseconds.
    pub fn tick(&mut self, delta: u64)
        requires
            old(self).wf(),
        ensures
            *final(self) == old(self).ticked(delta),
            final(self).wf(),
    {
        if self.finished {
            self.just_finished = false;
        } else if delta >= self.duration - self.elapsed {
            self.elapsed = self.duration;
            self.finished = true;
            self.just_finished = true;
        } else {
            self.elapsed = self.elapsed + delta;
        }
    }

    /// The time left on the timer, as the screen shows it.
    pub fn remaining(&self) -> (r: u64)
        requires
            self.wf(),
        ensures
            r == self.duration - self.elapsed,
    {
        self.duration - self.elapsed
    }
}

/// The outcome of a round at the moment of evaluation. The round goes on
/// while the timer runs and both sides have units left. It is won when no
/// war machine is left, lost when war machines but no sheep are left, and
/// drawn when the timer runs out on both.
pub open spec fn outcome(timer_expired: bool, sheep: nat, war_machines: nat) -> BattleStatus {
    if !timer_expired && sheep > 0 && war_machines > 0 {
        BattleStatus::StillPlaying
    } else if war_machines == 0 {
        BattleStatus::Victory
    } else if sheep == 0 {
        BattleStatus::GameOver
    } else {
        BattleStatus::Draw
    }
}

/// Evaluates the round: see `outcome`.
pub fn battle_outcome(timer_expired: bool, sheep: usize, war_machines: usize) -> (status: BattleStatus)
    ensures
        status == outcome(timer_expired, sheep as nat, war_machines as nat),
        war_machines == 0 && sheep > 0 ==> status == BattleStatus::Victory,
        sheep == 0 && war_machines > 0 ==> status == BattleStatus::GameOver,
        timer_expired && sheep > 0 && war_machines > 0 ==> status == BattleStatus::Draw,
        status == BattleStatus::StillPlaying <==> !timer_expired && sheep > 0 && war_machines > 0,
{
    if !timer_expired && sheep > 0 && war_machines > 0 {
        BattleStatus::StillPlaying
    } else if war_machines == 0 {
        BattleStatus::Victory
    } else if sheep == 0 {
        BattleStatus::GameOver
    } else {
        BattleStatus::Draw
    }
}

/// The result and the level after an evaluation. A round that is decided is
/// not evaluated again. A victory raises the level by one.
pub open spec fn evaluated(
    result: BattleResult,
    level: Level,
    timer_expired: bool,
    sheep: nat,
    war_machines: nat,
) -> (BattleResult, Level) {
    if result.battle_status != BattleStatus::StillPlaying {
        (result, level)
    } else {
        let status = outcome(timer_expired, sheep, war_machines);
        (
            BattleResult { battle_status: status, ..result },
            if status == BattleStatus::Victory {
                Level((level.0 + 1) as usize)
            } else {
                level
            },
        )
    }
}

/// A round that is evaluated while it is open and no war machine is left is
/// won: the level rises by one, and the report leaves the reward that the
/// result has promised. A round that is drawn or lost keeps its level.
pub proof fn lemma_victory_raises_level(
    result: BattleResult,
    level: Level,
    timer_expired: bool,
    sheep: nat,
    war_machines: nat,
)
    requires
        result.battle_status == BattleStatus::StillPlaying,
        level.0 < usize::MAX,
    ensures
        war_machines == 0 ==> evaluated(result, level, timer_expired, sheep, war_machines) == (
            BattleResult { battle_status: BattleStatus::Victory, ..result },
            Level((level.0 + 1) as usize),
        ),
        war_machines == 0 ==> evaluated(result, level, timer_expired, sheep, war_machines).0.report_effect_spec()
            == ReportEffect::Reward(LevelReward(result.level_reward_sheep_gained)),
        war_machines > 0 ==> evaluated(result, level, timer_expired, sheep, war_machines).1 == level,
        evaluated(result, level, timer_expired, sheep, war_machines).1.0 >= level.0,
{
}

/// Ends the round where it is over: records the outcome in `result`, raises
/// `level` after a victory, and tells whether the round is decided.
pub fn check_end_battle(
    result: &mut BattleResult,
    level: &mut Level,
    timer: &BattleTimer,
    sheep: usize,
    war_machines: usize,
) -> (decided: bool)
    requires
        old(result).battle_status == BattleStatus::StillPlaying && war_machines == 0 ==> old(level).0
            < usize::MAX,
    ensures
        (*final(result), *final(level)) == evaluated(
            *old(result),
            *old(level),
            timer.finished,
            sheep as nat,
            war_machines as nat,
        ),
        decided == (final(result).battle_status != BattleStatus::StillPlaying),
        final(level).0 >= old(level).0,
{
    if result.is_decided() {
        return true;
    }
    let status = battle_outcome(timer.finished, sheep, war_machines);
    result.battle_status = status;
    match status {
        BattleStatus::Victory => {
            level.0 = level.0 + 1;
            true
        },
        BattleStatus::StillPlaying => false,
        _ => true,
    }
}

/// A unit after a hit of `damage`: only its health has changed.
pub open spec fn hit(unit: Creature, damage: u64) -> Creature {
    Creature { health: unit.health.damaged(damage), ..unit }
}

/// A war machine after a hit of `damage`.
pub open spec fn hit_war_machine(wm: WarMachine, damage: u64) -> WarMachine {
    WarMachine { creature: hit(wm.creature, damage), ..wm }
}

/// The war machines after one sheep has acted. The sheep picks the nearest
/// war machine within its spotting range and hits it if it is within attack
/// range too.
pub open spec fn sheep_strike(sheep: Creature, wms: Seq<WarMachine>) -> Seq<WarMachine> {
    match nearest(sheep.position, positions_of(wms), sheep.attack.spotting_range as int) {
        Some(t) => if within(sheep.position, wms[t].creature.position, sheep.attack.attack_range as int) {
            wms.update(t, hit_war_machine(wms[t], sheep.attack.attack_damage))
        } else {
            wms
        },
        None => wms,
    }
}

/// The war machines after every sheep has acted, one after the other.
pub open spec fn sheep_attack_spec(sheep: Seq<Creature>, wms: Seq<WarMachine>) -> Seq<WarMachine>
    decreases sheep.len(),
{
    if sheep.len() == 0 {
        wms
    } else {
        sheep_strike(sheep.last(), sheep_attack_spec(sheep.drop_last(), wms))
    }
}

/// Two fields hold the same war machines but for their health, and none has
/// gained health from the first to the second.
pub open spec fn only_health_lost(before: Seq<WarMachine>, after: Seq<WarMachine>) -> bool {
    &&& after.len() == before.len()
    &&& forall|j: int|
        0 <= j < before.len() ==> {
            &&& (#[trigger] after[j]).creature.health.current <= before[j].creature.health.current
            &&& after[j] == WarMachine {
                creature: Creature { health: after[j].creature.health, ..before[j].creature },
                ..before[j]
            }
            &&& after[j].creature.health.max == before[j].creature.health.max
        }
}

/// The sheep move no war machine and change no state: all they do is take
/// health away.
pub proof fn lemma_sheep_attack_only_health(sheep: Seq<Creature>, wms: Seq<WarMachine>)
    ensures
        only_health_lost(wms, sheep_attack_spec(sheep, wms)),
    decreases sheep.len(),
{
    if sheep.len() > 0 {
        lemma_sheep_attack_only_health(sheep.drop_last(), wms);
        let mid = sheep_attack_spec(sheep.drop_last(), wms);
        let s = sheep.last();
        lemma_nearest_properties(s.position, positions_of(mid), s.attack.spotting_range as int);
        let after = sheep_strike(s, mid);
        assert forall|j: int| 0 <= j < wms.len() implies {
            &&& (#[trigger] after[j]).creature.health.current <= wms[j].creature.health.current
            &&& after[j] == WarMachine {
                creature: Creature { health: after[j].creature.health, ..wms[j].creature },
                ..wms[j]
            }
            &&& after[j].creature.health.max == wms[j].creature.health.max
        } by {
            assert(mid[j].creature.health.current <= wms[j].creature.health.current);
        }
    }
}

/// The friendly side of a tick: every sheep, in order, hits the nearest war
/// machine it spots if that one is within its attack range. A sheep hits on
/// every tick on which this holds.
pub fn sheep_attack(sheep: &Vec<Creature>, war_machines: &mut Vec<WarMachine>)
    ensures
        final(war_machines)@ == sheep_attack_spec(sheep@, old(war_machines)@),
        only_health_lost(old(war_machines)@, final(war_machines)@),
{
    let ghost before = war_machines@;
    let mut i: usize = 0;
    while i < sheep.len()
        invariant
            0 <= i <= sheep.len(),
            war_machines@ == sheep_attack_spec(sheep@.take(i as int), before),
        decreases sheep.len() - i,
    {
        let attacker = sheep[i];
        let ghost mid = war_machines@;
        match nearest_within(attacker.position, war_machines, attacker.attack.spotting_range) {
            Some(t) => {
                let mut target = war_machines[t];
                if is_within(attacker.position, target.creature.position, attacker.attack.attack_range) {
                    target.creature.health.take_damage(attacker.attack.attack_damage);
                    war_machines.set(t, target);
                }
            },
            None => {},
        }
        proof {
            assert(sheep@.take(i + 1).drop_last() =~= sheep@.take(i as int));
            assert(sheep@.take(i + 1).last() == attacker);
            assert(war_machines@ =~= sheep_strike(attacker, mid));
        }
        i += 1;
    }
    proof {
        assert(sheep@.take(sheep.len() as int) =~= sheep@);
        lemma_sheep_attack_only_health(sheep@, before);
    }
}

/// A sheep that still has health.
pub open spec fn is_alive(sheep: Creature) -> bool {
    !sheep.health.is_depleted()
}

/// Takes the sheep whose health is spent off the field. The others stay, in
/// their order. Returns how many were taken.
pub fn remove_dead_sheep(sheep: &mut Vec<Creature>) -> (removed: usize)
    ensures
        final(sheep)@ == old(sheep)@.filter(|s: Creature| is_alive(s)),
        forall|j: int| 0 <= j < final(sheep)@.len() ==> is_alive(#[trigger] final(sheep)@[j]),
        removed == old(sheep)@.len() - final(sheep)@.len(),
{
    let ghost before = sheep@;
    let ghost alive = |s: Creature| is_alive(s);
    let mut kept: Vec<Creature> = Vec::new();
    let mut i: usize = 0;
    while i < sheep.len()
        invariant
            0 <= i <= sheep.len(),
            sheep@ == before,
            alive == (|s: Creature| is_alive(s)),
            kept@ == before.take(i as int).filter(alive),
            forall|j: int| 0 <= j < kept@.len() ==> is_alive(#[trigger] kept@[j]),
            kept@.len() <= i,
        decreases sheep.len() - i,
    {
        let unit = sheep[i];
        proof {
            reveal(Seq::filter);
            assert(before.take(i + 1).drop_last() =~= before.take(i as int));
            assert(before.take(i + 1).last() == unit);
        }
        if !unit.health.depleted() {
            kept.push(unit);
        }
        i += 1;
    }
    proof {
        assert(before.take(sheep.len() as int) =~= before);
    }
    let removed: usize = sheep.len() - kept.len();
    *sheep = kept;
    removed
}

/// Sends every war machine whose health is spent into its dying state,
/// unless it is dying already.
pub fn apply_dying_to_dead_war_machines(war_machines: &mut Vec<WarMachine>)
    ensures
        final(war_machines)@.len() == old(war_machines)@.len(),
        forall|j: int|
            0 <= j < old(war_machines)@.len() ==> #[trigger] final(war_machines)@[j] == dying_applied(
                old(war_machines)@[j],
            ),
{
    let ghost before = war_machines@;
    let mut i: usize = 0;
    while i < war_machines.len()
        invariant
            0 <= i <= war_machines.len(),
            war_machines@.len() == before.len(),
            forall|j: int| 0 <= j < i ==> #[trigger] war_machines@[j] == dying_applied(before[j]),
            forall|j: int| i <= j < before.len() ==> #[trigger] war_machines@[j] == before[j],
        decreases war_machines.len() - i,
    {
        let mut unit = war_machines[i];
        unit.apply_dying();
        war_machines.set(i, unit);
        i += 1;
    }
}

/// The sheep after a war machine's action: a strike takes its damage from
/// its target, any other action leaves the sheep alone.
pub open spec fn struck(sheep: Seq<Creature>, action: Action) -> Seq<Creature> {
    match action {
        Action::Strike { target, damage, .. } => if target < sheep.len() {
            sheep.update(target as int, hit(sheep[target as int], damage))
        } else {
            sheep
        },
        _ => sheep,
    }
}

/// Whether the animation of the unit at place `k` has ended: a unit without
/// a flag of its own counts as still playing.
pub open spec fn finished_at(finished: Seq<bool>, k: int) -> bool {
    0 <= k < finished.len() && finished[k]
}

/// The field after the first `n` war machines have taken their step of
/// `delta` milliseconds, each seeing the sheep as the units before it left
/// them: the war machines, the sheep, and the actions so far.
pub open spec fn war_machines_tick_spec(
    wms: Seq<WarMachine>,
    sheep: Seq<Creature>,
    finished: Seq<bool>,
    delta: u32,
    n: nat,
) -> (Seq<WarMachine>, Seq<Creature>, Seq<Action>)
    decreases n,
{
    if n == 0 || n > wms.len() {
        (wms, sheep, Seq::empty())
    } else {
        let (w, s, a) = war_machines_tick_spec(wms, sheep, finished, delta, (n - 1) as nat);
        let k = n - 1;
        let step = step_spec(w[k], positions_of(s), finished_at(finished, k));
        (
            w.update(k, moved(stepped(w[k], step), step.action, positions_of(s), delta)),
            struck(s, step.action),
            a.push(step.action),
        )
    }
}

/// The hostile side of a tick of `delta` milliseconds: every war machine,
/// in order, takes its step. An advance moves the unit and a strike is taken
/// from its target at once. The actions come back, one per war machine:
/// the host shows them, and `remove_war_machines` goes by them.
pub fn war_machines_tick(
    war_machines: &mut Vec<WarMachine>,
    sheep: &mut Vec<Creature>,
    finished: &Vec<bool>,
    delta: u32,
) -> (actions: Vec<Action>)
    ensures
        (final(war_machines)@, final(sheep)@, actions@) == war_machines_tick_spec(
            old(war_machines)@,
            old(sheep)@,
            finished@,
            delta,
            old(war_machines)@.len(),
        ),
        final(war_machines)@.len() == old(war_machines)@.len(),
        final(sheep)@.len() == old(sheep)@.len(),
        actions@.len() == old(war_machines)@.len(),
{
    let ghost wms0 = war_machines@;
    let ghost sheep0 = sheep@;
    let mut actions: Vec<Action> = Vec::new();
    let mut k: usize = 0;
    while k < war_machines.len()
        invariant
            0 <= k <= war_machines.len(),
            war_machines@.len() == wms0.len(),
            sheep@.len() == sheep0.len(),
            actions@.len() == k,
            (war_machines@, sheep@, actions@) == war_machines_tick_spec(
                wms0,
                sheep0,
                finished@,
                delta,
                k as nat,
            ),
        decreases war_machines.len() - k,
    {
        let mut unit = war_machines[k];
        let done = k < finished.len() && finished[k];
        let step = unit.step(sheep, done);
        unit.apply(step);
        let ghost sheep_before = sheep@;
        let ghost wms_before = war_machines@;
        let ghost actions_before = actions@;
        match step.action {
            Action::Advance { target, flip_x: _ } => {
                if target < sheep.len() {
                    assert(sheep@[target as int].position == positions_of(sheep@)[target as int]);
                    unit.advance_on(sheep[target].position, delta);
                }
            },
            Action::Strike { target, damage, flip_x: _ } => {
                if target < sheep.len() {
                    let mut victim = sheep[target];
                    victim.health.take_damage(damage);
                    sheep.set(target, victim);
                }
            },
            _ => {},
        }
        war_machines.set(k, unit);
        actions.push(step.action);
        proof {
            assert(sheep@ =~= struck(sheep_before, step.action));
            assert(war_machines@ =~= wms_before.update(
                k as int,
                moved(stepped(wms_before[k as int], step), step.action, positions_of(sheep_before), delta),
            ));
            assert(actions@ =~= actions_before.push(step.action));
        }
        k += 1;
    }
    actions
}

/// The war machines that stay on the field: those of the first `n` whose
/// action is not a removal, in their order.
pub open spec fn remaining(wms: Seq<WarMachine>, actions: Seq<Action>, n: nat) -> Seq<WarMachine>
    decreases n,
{
    if n == 0 || n > wms.len() {
        Seq::empty()
    } else {
        let front = remaining(wms, actions, (n - 1) as nat);
        if n - 1 < actions.len() && actions[n - 1] is Remove {
            front
        } else {
            front.push(wms[n - 1])
        }
    }
}

/// Takes off the field every war machine whose action asks for it. Returns
/// how many were taken.
pub fn remove_war_machines(war_machines: &mut Vec<WarMachine>, actions: &Vec<Action>) -> (removed: usize)
    ensures
        final(war_machines)@ == remaining(old(war_machines)@, actions@, old(war_machines)@.len()),
        removed == old(war_machines)@.len() - final(war_machines)@.len(),
{
    let ghost before = war_machines@;
    let mut kept: Vec<WarMachine> = Vec::new();
    let mut i: usize = 0;
    while i < war_machines.len()
        invariant
            0 <= i <= war_machines.len(),
            war_machines@ == before,
            kept@ == remaining(before, actions@, i as nat),
            kept@.len() <= i,
        decreases war_machines.len() - i,
    {
        let gone = i < actions.len() && match actions[i] {
            Action::Remove => true,
            _ => false,
        };
        if !gone {
            kept.push(war_machines[i]);
        }
        i += 1;
    }
    let removed: usize = war_machines.len() - kept.len();
    *war_machines = kept;
    removed
}

/// A point of the battlefield.
pub open spec fn in_battlefield(p: Point) -> bool {
    &&& BATTLEFIELD_BOUNDS_X.0 <= p.x <= BATTLEFIELD_BOUNDS_X.1
    &&& BATTLEFIELD_BOUNDS_Y.0 <= p.y <= BATTLEFIELD_BOUNDS_Y.1
}

/// The bounds that keep a war machine on the battlefield.
pub fn battlefield_bounds() -> (b: Bounds)
    ensures
        b.x == BATTLEFIELD_BOUNDS_X,
        b.y == BATTLEFIELD_BOUNDS_Y,
{
    Bounds { x: BATTLEFIELD_BOUNDS_X, y: BATTLEFIELD_BOUNDS_Y }
}

/// The war machine of the first level, standing at `position`.
pub open spec fn level1_war_machine_spec(position: Point) -> WarMachine {
    WarMachine {
        creature: Creature {
            position,
            health: Health { current: 60000, max: 60000 },
            speed: Speed(4000),
            attack: Attack { attack_damage: 10000, attack_range: 1000, spotting_range: 1000000 },
        },
        behaviour: BehaviourType::ChasingClosest,
        state: CreatureState::initial(),
        flip_x: false,
    }
}

pub fn level1_war_machine(position: Point) -> (wm: WarMachine)
    ensures
        wm == level1_war_machine_spec(position),
{
    new_war_machine(
        Creature {
            position,
            health: Health::new(60000),
            speed: Speed(4000),
            attack: Attack { attack_damage: 10000, attack_range: 1000, spotting_range: 1000000 },
        },
        BehaviourType::ChasingClosest,
    )
}

/// What a round starts with.
pub struct RoundSetup {
    pub timer: BattleTimer,
    pub result: BattleResult,
    pub war_machines: Vec<WarMachine>,
}

/// The reward for winning the first level, in sheep.
pub const LEVEL1_REWARD: usize = 5;

/// Sets the first level up: a fresh timer of the default length, an open
/// result that promises the level's reward, and a single war machine
/// somewhere on the battlefield. Where it stands is left to chance.
pub fn setup_level1() -> (setup: RoundSetup)
    ensures
        setup.timer == BattleTimer::fresh(DEFAULT_ROUND_TIME),
        setup.result == (BattleResult {
            battle_status: BattleStatus::StillPlaying,
            war_machines_slain: 0,
            sheep_slain: 0,
            level_reward_sheep_gained: LEVEL1_REWARD,
        }),
        setup.war_machines@.len() == 1,
        in_battlefield(setup.war_machines@[0].creature.position),
        setup.war_machines@[0] == level1_war_machine_spec(setup.war_machines@[0].creature.position),
{
    let x: i32 = random_between(BATTLEFIELD_BOUNDS_X.0, BATTLEFIELD_BOUNDS_X.1);
    let y: i32 = random_between(BATTLEFIELD_BOUNDS_Y.0, BATTLEFIELD_BOUNDS_Y.1);
    let mut war_machines: Vec<WarMachine> = Vec::new();
    war_machines.push(level1_war_machine(Point { x, y }));
    RoundSetup {
        timer: BattleTimer::new(DEFAULT_ROUND_TIME),
        result: BattleResult {
            battle_status: BattleStatus::StillPlaying,
            war_machines_slain: 0,
            sheep_slain: 0,
            level_reward_sheep_gained: LEVEL1_REWARD,
        },
        war_machines,
    }
}

/// Sets a round up for the level that is played. Only the first level has a
/// setup of its own: on any other level the field is left as it is.
pub fn setup_level(level: &Level) -> (setup: Option<RoundSetup>)
    ensures
        setup is Some <==> level.0 == 1,
        setup matches Some(s) ==> {
            &&& s.timer == BattleTimer::fresh(DEFAULT_ROUND_TIME)
            &&& s.result == (BattleResult {
                battle_status: BattleStatus::StillPlaying,
                war_machines_slain: 0,
                sheep_slain: 0,
                level_reward_sheep_gained: LEVEL1_REWARD,
            })
            &&& s.war_machines@.len() == 1
            &&& in_battlefield(s.war_machines@[0].creature.position)
            &&& s.war_machines@[0] == level1_war_machine_spec(s.war_machines@[0].creature.position)
        },
{
    if level.0 == 1 {
        Some(setup_level1())
    } else {
        None
    }
}

/// A round in progress: both sides, the clock, the result so far and the
/// level.
pub struct Battle {
    pub sheep: Vec<Creature>,
    pub war_machines: Vec<WarMachine>,
    pub timer: BattleTimer,
    pub result: BattleResult,
    pub level: Level,
}

/// What a round holds, as plain values.
pub struct BattleView {
    pub sheep: Seq<Creature>,
    pub war_machines: Seq<WarMachine>,
    pub timer: BattleTimer,
    pub result: BattleResult,
    pub level: Level,
}

impl View for Battle {
    type V = BattleView;

    open spec fn view(&self) -> BattleView {
        BattleView {
            sheep: self.sheep@,
            war_machines: self.war_machines@,
            timer: self.timer,
            result: self.result,
            level: self.level,
        }
    }
}

/// The round after one tick of `delta` milliseconds, and the actions of the
/// war machines in it. In this order: the clock advances; the sheep attack;
/// the war machines take their steps and move; the sheep whose health is spent leave
/// the field; the war machines whose health is spent start dying, and those
/// whose last animation has ended leave the field; the round is evaluated on
/// who is left.
pub open spec fn tick_spec(b: BattleView, delta: u32, finished: Seq<bool>) -> (BattleView, Seq<Action>) {
    let timer = b.timer.ticked(delta as u64);
    let attacked = sheep_attack_spec(b.sheep, b.war_machines);
    let (stepped_wms, struck_sheep, actions) = war_machines_tick_spec(
        attacked,
        b.sheep,
        finished,
        delta,
        attacked.len(),
    );
    let sheep = struck_sheep.filter(|s: Creature| is_alive(s));
    let dying = Seq::new(stepped_wms.len(), |j: int| dying_applied(stepped_wms[j]));
    let war_machines = remaining(dying, actions, dying.len());
    let (result, level) = evaluated(b.result, b.level, timer.finished, sheep.len(), war_machines.len());
    (BattleView { sheep, war_machines, timer, result, level }, actions)
}

impl Battle {
    /// A round is sound when its clock is, and when the level can still
    /// rise.
    pub open spec fn wf(&self) -> bool {
        &&& self.timer.wf()
        &&& self.level.0 < usize::MAX
    }

    /// Starts a round on `level` with the given flock, if the level has a
    /// setup.
    pub fn start(sheep: Vec<Creature>, level: Level) -> (battle: Option<Battle>)
        ensures
            battle is Some <==> level.0 == 1,
            battle matches Some(b) ==> {
                &&& b.sheep@ == sheep@
                &&& b.level == level
                &&& b.timer == BattleTimer::fresh(DEFAULT_ROUND_TIME)
                &&& b.result == (BattleResult {
                    battle_status: BattleStatus::StillPlaying,
                    war_machines_slain: 0,
                    sheep_slain: 0,
                    level_reward_sheep_gained: LEVEL1_REWARD,
                })
                &&& b.war_machines@.len() == 1
                &&& in_battlefield(b.war_machines@[0].creature.position)
                &&& b.war_machines@[0] == level1_war_machine_spec(b.war_machines@[0].creature.position)
                &&& b.wf()
            },
    {
        match setup_level(&level) {
            Some(setup) => Some(
                Battle { sheep, war_machines: setup.war_machines, timer: setup.timer, result: setup.result, level },
            ),
            None => None,
        }
    }

    /// Runs one tick of `delta` milliseconds. `finished` tells for each war
    /// machine whether its animation has ended. The actions come back, one
    /// per war machine that was on the field when the tick began.
    pub fn tick(&mut self, delta: u32, finished: &Vec<bool>) -> (actions: Vec<Action>)
        requires
            old(self).wf(),
        ensures
            (final(self)@, actions@) == tick_spec(old(self)@, delta, finished@),
            final(self).timer.wf(),
            final(self).level.0 >= old(self).level.0,
    {
        self.timer.tick(delta as u64);
        sheep_attack(&self.sheep, &mut self.war_machines);
        let actions = war_machines_tick(&mut self.war_machines, &mut self.sheep, finished, delta);
        let ghost stepped_wms = self.war_machines@;
        remove_dead_sheep(&mut self.sheep);
        apply_dying_to_dead_war_machines(&mut self.war_machines);
        assert(self.war_machines@ =~= Seq::new(stepped_wms.len(), |j: int| dying_applied(stepped_wms[j])));
        remove_war_machines(&mut self.war_machines, &actions);
        check_end_battle(
            &mut self.result,
            &mut self.level,
            &self.timer,
            self.sheep.len(),
            self.war_machines.len(),
        );
        actions
    }

    /// The round is over.
    pub fn is_over(&self) -> (r: bool)
        ensures
            r == (self.result.battle_status != BattleStatus::StillPlaying),
    {
        self.result.is_decided()
    }
}

} // verus!
