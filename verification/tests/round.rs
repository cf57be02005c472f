use war_sheep::battle::states::{Attacking, CreatureState, Dying, Idling, Walking};
use war_sheep::battle::war_machines::{
    attacking, dying, idling, new_war_machine, walking, Action, Step, WarMachine,
};
use war_sheep::battle::{
    apply_dying_to_dead_war_machines, battle_outcome, battlefield_bounds, check_end_battle,
    level1_war_machine, remove_dead_sheep, remove_war_machines, setup_level, setup_level1, sheep_attack,
    war_machines_tick, Battle, BattleTimer, Level,
};
use war_sheep::battle_report::{BattleResult, BattleStatus, LevelReward, NewGame, ReportEffect};
use war_sheep::geometry::{advance, integer_sqrt, Point};
use war_sheep::utils::{Attack, BehaviourType, Creature, Health, Speed};

fn creature(x: i32, y: i32, health: i64, damage: u64, range: i64, spotting: i64) -> Creature {
    Creature {
        position: Point { x, y },
        health: Health::new(health),
        speed: Speed(1000),
        attack: Attack { attack_damage: damage, attack_range: range, spotting_range: spotting },
    }
}

fn machine(x: i32, y: i32, state: CreatureState) -> WarMachine {
    WarMachine {
        creature: creature(x, y, 60_000, 10_000, 1000, 5000),
        behaviour: BehaviourType::ChasingClosest,
        state,
        flip_x: false,
    }
}

fn idle() -> CreatureState {
    CreatureState::Idling(Idling)
}

fn walk() -> CreatureState {
    CreatureState::Walking(Walking)
}

fn attack(has_started: bool) -> CreatureState {
    CreatureState::Attacking(Attacking { has_started })
}

fn sheep_at(x: i32, y: i32) -> Creature {
    creature(x, y, 20_000, 200, 1000, 100_000)
}

#[test]
fn states_name_their_animations() {
    assert_eq!(Idling::animation(), "idling");
    assert_eq!(Walking::animation(), "walking");
    assert_eq!(Attacking::animation(), "attacking");
    assert_eq!(Dying::animation(), "dying");
    assert_eq!(idle().animation(), "idling");
    assert_eq!(walk().animation(), "walking");
    assert_eq!(attack(true).animation(), "attacking");
    assert_eq!(CreatureState::Dying(Dying::default()).animation(), "dying");
    assert!(idle().animation_repeats());
    assert!(!CreatureState::Dying(Dying::default()).animation_repeats());
    assert!(!Attacking::default().has_started);
}

#[test]
fn an_idle_unit_with_nobody_in_sight_stays_idle() {
    let mut wm = machine(0, 0, idle());
    let sheep = vec![sheep_at(5001, 0), sheep_at(0, -6000), sheep_at(4000, 4000)];
    let mut tick: usize = 0;
    while tick < 100 {
        let step = wm.step(&sheep, tick % 2 == 0);
        assert_eq!(step, Step { state: idle(), action: Action::Nothing });
        wm.apply(step);
        assert_eq!(wm, machine(0, 0, idle()));
        tick += 1;
    }
    let nobody: Vec<Creature> = Vec::new();
    assert_eq!(wm.step(&nobody, true), Step { state: idle(), action: Action::Nothing });
}

#[test]
fn an_idle_unit_walks_once_it_spots_a_sheep() {
    let wm = machine(0, 0, idle());
    let sheep = vec![sheep_at(5001, 0), sheep_at(3000, 4000)];
    assert_eq!(idling(&wm, &sheep), Step { state: walk(), action: Action::Nothing });
    assert_eq!(wm.step(&sheep, false), Step { state: walk(), action: Action::Nothing });
}

#[test]
fn a_walking_unit_that_loses_sight_idles() {
    let wm = machine(0, 0, walk());
    let sheep = vec![sheep_at(5001, 0)];
    assert_eq!(walking(&wm, &sheep), Step { state: idle(), action: Action::Nothing });
}

#[test]
fn a_walking_unit_advances_on_the_nearest_sheep() {
    let wm = machine(0, 0, walk());
    let sheep = vec![sheep_at(4000, 0), sheep_at(-2000, 0), sheep_at(0, 3000)];
    assert_eq!(
        walking(&wm, &sheep),
        Step { state: walk(), action: Action::Advance { target: 1, flip_x: true } }
    );
    let right = vec![sheep_at(4000, 0), sheep_at(2000, 100)];
    assert_eq!(
        walking(&wm, &right),
        Step { state: walk(), action: Action::Advance { target: 1, flip_x: false } }
    );
    let above = vec![sheep_at(0, 1001)];
    assert_eq!(
        walking(&wm, &above),
        Step { state: walk(), action: Action::Advance { target: 0, flip_x: true } }
    );
}

#[test]
fn a_walking_unit_in_reach_of_its_target_starts_an_attack() {
    let wm = machine(0, 0, walk());
    let sheep = vec![sheep_at(4000, 0), sheep_at(1000, 0)];
    assert_eq!(walking(&wm, &sheep), Step { state: attack(false), action: Action::Nothing });
}

#[test]
fn an_approach_leads_to_one_attack_and_one_strike() {
    let mut wm = machine(0, 0, idle());
    let mut sheep = vec![sheep_at(600, 0)];
    let mut entered: usize = 0;
    let mut strikes: usize = 0;
    let mut tick: usize = 0;
    while tick < 12 {
        let was_walking = wm.state == walk();
        let animation_finished = tick == 9;
        let step = wm.step(&sheep, animation_finished);
        if was_walking && step.state == attack(false) {
            entered += 1;
        }
        if let Action::Strike { target, damage, flip_x } = step.action {
            strikes += 1;
            assert_eq!(target, 0);
            assert_eq!(damage, 10_000);
            assert!(!flip_x);
            sheep[target].health.take_damage(damage);
        }
        wm.apply(step);
        if tick >= 2 && tick < 9 {
            assert_eq!(wm.state, attack(true));
        }
        tick += 1;
        if wm.state == idle() && tick > 2 {
            break;
        }
    }
    assert_eq!(tick, 10);
    assert_eq!(entered, 1);
    assert_eq!(strikes, 1);
    assert_eq!(sheep[0].health.current, 10_000);
    assert_eq!(wm.state, idle());
}

#[test]
fn an_attack_without_a_sheep_in_reach_ends_at_once() {
    let wm = machine(0, 0, attack(false));
    let sheep = vec![sheep_at(1001, 0)];
    assert_eq!(
        attacking(&wm, Attacking { has_started: false }, &sheep, false),
        Step { state: idle(), action: Action::Nothing }
    );
}

#[test]
fn an_attack_strikes_the_nearest_sheep_in_reach() {
    let wm = machine(0, 0, attack(false));
    let sheep = vec![sheep_at(900, 0), sheep_at(-500, 0), sheep_at(0, 500)];
    assert_eq!(
        attacking(&wm, Attacking { has_started: false }, &sheep, true),
        Step { state: attack(true), action: Action::Strike { target: 1, damage: 10_000, flip_x: true } }
    );
}

#[test]
fn a_started_attack_waits_for_its_animation() {
    let wm = machine(0, 0, attack(true));
    let sheep = vec![sheep_at(500, 0)];
    let started = Attacking { has_started: true };
    assert_eq!(attacking(&wm, started, &sheep, false), Step { state: attack(true), action: Action::Nothing });
    assert_eq!(attacking(&wm, started, &sheep, true), Step { state: idle(), action: Action::Nothing });
}

#[test]
fn a_dying_unit_is_removed_after_its_animation() {
    let started = CreatureState::Dying(Dying { has_started: true });
    assert_eq!(dying(Dying { has_started: false }, false), Step { state: started, action: Action::Nothing });
    assert_eq!(dying(Dying { has_started: false }, true), Step { state: started, action: Action::Nothing });
    assert_eq!(dying(Dying { has_started: true }, false), Step { state: started, action: Action::Nothing });
    assert_eq!(dying(Dying { has_started: true }, true), Step { state: started, action: Action::Remove });
}

#[test]
fn a_unit_without_health_starts_dying_once() {
    let mut wm = machine(0, 0, walk());
    wm.apply_dying();
    assert_eq!(wm.state, walk());
    wm.creature.health.current = 0;
    wm.apply_dying();
    assert_eq!(wm.state, CreatureState::Dying(Dying { has_started: false }));
    wm.state = CreatureState::Dying(Dying { has_started: true });
    wm.apply_dying();
    assert_eq!(wm.state, CreatureState::Dying(Dying { has_started: true }));
}

#[test]
fn apply_dying_goes_over_all_war_machines() {
    let mut wms = vec![machine(0, 0, idle()), machine(1, 1, attack(true)), machine(2, 2, walk())];
    wms[1].creature.health.current = -5;
    apply_dying_to_dead_war_machines(&mut wms);
    assert_eq!(wms[0].state, idle());
    assert_eq!(wms[1].state, CreatureState::Dying(Dying { has_started: false }));
    assert_eq!(wms[2].state, walk());
}

#[test]
fn sheep_hit_on_every_tick_in_reach() {
    let sheep = vec![creature(0, 0, 20_000, 1000, 1000, 100_000)];
    let mut wms = vec![machine(900, 0, idle())];
    let mut tick: i64 = 1;
    while tick <= 5 {
        sheep_attack(&sheep, &mut wms);
        assert_eq!(wms[0].creature.health.current, 60_000 - 1000 * tick);
        tick += 1;
    }
    assert_eq!(wms[0].creature.health.max, 60_000);
    assert_eq!(wms[0].creature.position, Point { x: 900, y: 0 });
}

#[test]
fn sheep_hit_only_the_nearest_and_only_in_reach() {
    let sheep = vec![
        creature(0, 0, 20_000, 300, 1000, 100_000),
        creature(100, 0, 20_000, 500, 1000, 100_000),
        creature(5000, 0, 20_000, 700, 1000, 100_000),
        creature(0, 100, 20_000, 900, 1000, 50),
    ];
    let mut wms = vec![machine(2000, 0, idle()), machine(-800, 0, idle()), machine(5500, 0, walk())];
    sheep_attack(&sheep, &mut wms);
    assert_eq!(wms[0].creature.health.current, 60_000);
    assert_eq!(wms[1].creature.health.current, 60_000 - 300 - 500);
    assert_eq!(wms[2].creature.health.current, 60_000 - 700);
    assert_eq!(wms[2].state, walk());
}

#[test]
fn a_first_level_sheep_cannot_reach_anyone() {
    let sheep = vec![creature(0, 0, 20_000, 200, -800, 100_000)];
    let mut wms = vec![machine(0, 0, idle())];
    sheep_attack(&sheep, &mut wms);
    assert_eq!(wms[0].creature.health.current, 60_000);
}

#[test]
fn dead_sheep_leave_the_field() {
    let mut sheep = vec![sheep_at(0, 0), sheep_at(1, 0), sheep_at(2, 0), sheep_at(3, 0)];
    sheep[0].health.current = 0;
    sheep[2].health.current = -10;
    assert_eq!(remove_dead_sheep(&mut sheep), 2);
    assert_eq!(sheep, vec![sheep_at(1, 0), sheep_at(3, 0)]);
    assert_eq!(remove_dead_sheep(&mut sheep), 0);
    assert_eq!(sheep.len(), 2);
}

#[test]
fn war_machines_tick_steps_every_unit() {
    let mut wms = vec![machine(0, 0, idle()), machine(100, 0, attack(false)), machine(200, 0, attack(false))];
    let mut sheep = vec![sheep_at(500, 0)];
    let finished = vec![false, false, false];
    let actions = war_machines_tick(&mut wms, &mut sheep, &finished, 100);
    assert_eq!(
        actions,
        vec![
            Action::Nothing,
            Action::Strike { target: 0, damage: 10_000, flip_x: false },
            Action::Strike { target: 0, damage: 10_000, flip_x: false },
        ]
    );
    assert_eq!(wms[0].state, walk());
    assert_eq!(wms[1].state, attack(true));
    assert_eq!(wms[2].state, attack(true));
    assert_eq!(sheep[0].health.current, 0);
}

#[test]
fn war_machines_tick_counts_a_missing_flag_as_not_finished() {
    let mut wms = vec![machine(0, 0, attack(true)), machine(1, 0, attack(true))];
    let mut sheep = vec![sheep_at(500, 0)];
    let finished = vec![true];
    let actions = war_machines_tick(&mut wms, &mut sheep, &finished, 100);
    assert_eq!(actions, vec![Action::Nothing, Action::Nothing]);
    assert_eq!(wms[0].state, idle());
    assert_eq!(wms[1].state, attack(true));
}

#[test]
fn removed_war_machines_leave_the_field() {
    let mut wms = vec![machine(0, 0, idle()), machine(1, 0, walk()), machine(2, 0, idle())];
    let actions = vec![Action::Remove, Action::Nothing, Action::Remove];
    assert_eq!(remove_war_machines(&mut wms, &actions), 2);
    assert_eq!(wms, vec![machine(1, 0, walk())]);
}

#[test]
fn the_timer_counts_up_to_its_duration() {
    let mut timer = BattleTimer::new(5000);
    assert_eq!(timer, BattleTimer { duration: 5000, elapsed: 0, finished: false, just_finished: false });
    assert_eq!(timer.remaining(), 5000);
    timer.tick(100);
    assert_eq!(timer.elapsed, 100);
    assert_eq!(timer.remaining(), 4900);
    assert!(!timer.finished);
    timer.tick(4899);
    assert!(!timer.finished);
    timer.tick(1);
    assert!(timer.finished);
    assert!(timer.just_finished);
    assert_eq!(timer.elapsed, 5000);
    timer.tick(100);
    assert!(timer.finished);
    assert!(!timer.just_finished);
    assert_eq!(timer.elapsed, 5000);
    assert_eq!(timer.remaining(), 0);
}

#[test]
fn the_timer_stops_at_its_duration() {
    let mut timer = BattleTimer::new(15_000);
    timer.tick(u64::MAX);
    assert_eq!(timer, BattleTimer { duration: 15_000, elapsed: 15_000, finished: true, just_finished: true });
}

#[test]
fn the_outcome_follows_who_is_left() {
    assert_eq!(battle_outcome(false, 3, 0), BattleStatus::Victory);
    assert_eq!(battle_outcome(true, 3, 0), BattleStatus::Victory);
    assert_eq!(battle_outcome(false, 0, 2), BattleStatus::GameOver);
    assert_eq!(battle_outcome(true, 0, 2), BattleStatus::GameOver);
    assert_eq!(battle_outcome(true, 1, 1), BattleStatus::Draw);
    assert_eq!(battle_outcome(false, 1, 1), BattleStatus::StillPlaying);
    assert_eq!(battle_outcome(false, 0, 0), BattleStatus::Victory);
}

#[test]
fn a_victory_raises_the_level() {
    let mut result = BattleResult::default();
    let mut level = Level(1);
    let timer = BattleTimer::new(5000);
    assert!(!check_end_battle(&mut result, &mut level, &timer, 2, 1));
    assert_eq!(result.battle_status, BattleStatus::StillPlaying);
    assert_eq!(level, Level(1));
    assert!(check_end_battle(&mut result, &mut level, &timer, 2, 0));
    assert_eq!(result.battle_status, BattleStatus::Victory);
    assert_eq!(level, Level(2));
    assert!(check_end_battle(&mut result, &mut level, &timer, 0, 3));
    assert_eq!(result.battle_status, BattleStatus::Victory);
    assert_eq!(level, Level(2));
}

#[test]
fn a_draw_and_a_lost_game_keep_the_level() {
    let mut timer = BattleTimer::new(5000);
    timer.tick(5000);
    let mut result = BattleResult::default();
    let mut level = Level(3);
    assert!(check_end_battle(&mut result, &mut level, &timer, 2, 1));
    assert_eq!(result.battle_status, BattleStatus::Draw);
    assert_eq!(level, Level(3));
    let mut lost = BattleResult::default();
    assert!(check_end_battle(&mut lost, &mut level, &BattleTimer::new(5000), 0, 1));
    assert_eq!(lost.battle_status, BattleStatus::GameOver);
    assert_eq!(level, Level(3));
}

#[test]
fn the_report_leaves_a_reward_or_a_reset() {
    let mut result = BattleResult { level_reward_sheep_gained: 5, ..BattleResult::default() };
    assert_eq!(BattleStatus::default(), BattleStatus::StillPlaying);
    assert_eq!(result.report_effect(), ReportEffect::Nothing);
    assert!(!result.is_decided());
    result.battle_status = BattleStatus::Victory;
    assert_eq!(result.report_effect(), ReportEffect::Reward(LevelReward(5)));
    assert!(result.is_decided());
    result.battle_status = BattleStatus::GameOver;
    assert_eq!(result.report_effect(), ReportEffect::Reset(NewGame));
    result.battle_status = BattleStatus::Draw;
    assert_eq!(result.report_effect(), ReportEffect::Nothing);
}

#[test]
fn the_first_level_has_one_war_machine() {
    let setup = setup_level1();
    assert_eq!(setup.timer, BattleTimer::new(15_000));
    assert_eq!(
        setup.result,
        BattleResult {
            battle_status: BattleStatus::StillPlaying,
            war_machines_slain: 0,
            sheep_slain: 0,
            level_reward_sheep_gained: 5,
        }
    );
    assert_eq!(setup.war_machines.len(), 1);
    let wm = setup.war_machines[0];
    assert!(-6200 <= wm.creature.position.x && wm.creature.position.x <= 6200);
    assert!(-6400 <= wm.creature.position.y && wm.creature.position.y <= 7000);
    assert_eq!(wm, level1_war_machine(wm.creature.position));
    assert_eq!(wm.creature.health, Health { current: 60_000, max: 60_000 });
    assert_eq!(wm.creature.speed, Speed(4000));
    assert_eq!(
        wm.creature.attack,
        Attack { attack_damage: 10_000, attack_range: 1000, spotting_range: 1_000_000 }
    );
    assert_eq!(wm.state, idle());
    assert_eq!(battlefield_bounds().x, (-6200, 6200));
    assert_eq!(battlefield_bounds().y, (-6400, 7000));
}

#[test]
fn the_first_war_machine_stands_somewhere_by_chance() {
    let first = setup_level1().war_machines[0].creature.position;
    let mut moved = false;
    let mut off_the_corner = false;
    let mut i: usize = 0;
    while i < 64 {
        let p = setup_level1().war_machines[0].creature.position;
        moved = moved || p != first;
        off_the_corner = off_the_corner || (p.x != -6200 && p.y != -6400);
        i += 1;
    }
    assert!(moved);
    assert!(off_the_corner);
}

#[test]
fn only_the_first_level_has_a_setup() {
    assert!(setup_level(&Level(1)).is_some());
    assert!(setup_level(&Level(0)).is_none());
    assert!(setup_level(&Level(2)).is_none());
    assert!(setup_level(&Level(4)).is_none());
    assert!(Battle::start(Vec::new(), Level(4)).is_none());
    let battle = Battle::start(vec![sheep_at(0, 0)], Level(1));
    assert!(battle.is_some());
}

#[test]
fn a_round_is_won_before_the_timer_runs_out() {
    let mut hostile = machine(500, 0, idle());
    hostile.creature.health = Health::new(10_000);
    hostile.creature.attack.attack_damage = 10;
    let mut battle = Battle {
        sheep: vec![creature(0, 0, 1_000_000, 1000, 1000, 100_000)],
        war_machines: vec![hostile],
        timer: BattleTimer::new(5000),
        result: BattleResult { level_reward_sheep_gained: 5, ..BattleResult::default() },
        level: Level(1),
    };
    let mut ticks: u64 = 0;
    while !battle.is_over() && ticks < 50 {
        let finished = vec![true; battle.war_machines.len()];
        battle.tick(100, &finished);
        ticks += 1;
        if ticks <= 10 && !battle.war_machines.is_empty() {
            assert_eq!(battle.war_machines[0].creature.health.current, 10_000 - 1000 * ticks as i64);
        }
        if ticks == 9 {
            assert!(!battle.is_over());
        }
    }
    assert_eq!(ticks, 12);
    assert_eq!(battle.result.battle_status, BattleStatus::Victory);
    assert_eq!(battle.level, Level(2));
    assert!(!battle.timer.finished);
    assert_eq!(battle.timer.elapsed, 1200);
    assert!(battle.war_machines.is_empty());
    assert_eq!(battle.sheep.len(), 1);
    assert_eq!(battle.result.report_effect(), ReportEffect::Reward(LevelReward(5)));
}

#[test]
fn a_round_out_of_reach_ends_in_a_draw() {
    let mut battle = Battle {
        sheep: vec![creature(0, 0, 20_000, 200, 1000, 1000)],
        war_machines: vec![machine(6000, 6000, idle())],
        timer: BattleTimer::new(5000),
        result: BattleResult::default(),
        level: Level(1),
    };
    let mut ticks: u64 = 0;
    while !battle.is_over() && ticks < 100 {
        let finished = vec![false];
        let actions = battle.tick(100, &finished);
        assert_eq!(actions, vec![Action::Nothing]);
        ticks += 1;
    }
    assert_eq!(ticks, 50);
    assert_eq!(battle.result.battle_status, BattleStatus::Draw);
    assert_eq!(battle.level, Level(1));
    assert_eq!(battle.result.report_effect(), ReportEffect::Nothing);
}

#[test]
fn a_round_without_sheep_is_lost() {
    let mut hostile = machine(500, 0, attack(false));
    hostile.creature.attack.attack_damage = 20_000;
    let mut battle = Battle {
        sheep: vec![creature(0, 0, 20_000, 0, 1000, 100_000)],
        war_machines: vec![hostile],
        timer: BattleTimer::new(5000),
        result: BattleResult::default(),
        level: Level(1),
    };
    let actions = battle.tick(100, &vec![false]);
    assert_eq!(actions, vec![Action::Strike { target: 0, damage: 20_000, flip_x: true }]);
    assert!(battle.is_over());
    assert!(battle.sheep.is_empty());
    assert_eq!(battle.result.battle_status, BattleStatus::GameOver);
    assert_eq!(battle.level, Level(1));
    assert_eq!(battle.result.report_effect(), ReportEffect::Reset(NewGame));
}

#[test]
fn integer_sqrt_rounds_down() {
    assert_eq!(integer_sqrt(0), 0);
    assert_eq!(integer_sqrt(1), 1);
    assert_eq!(integer_sqrt(3), 1);
    assert_eq!(integer_sqrt(4), 2);
    assert_eq!(integer_sqrt(24_999_999), 4999);
    assert_eq!(integer_sqrt(25_000_000), 5000);
    assert_eq!(integer_sqrt(25_000_001), 5000);
    let far: u128 = 4_294_967_295;
    assert_eq!(integer_sqrt(far * far), 4_294_967_295);
    assert_eq!(integer_sqrt(2 * far * far), 6_074_000_998);
    assert_eq!(integer_sqrt(u128::MAX), u64::MAX);
}

#[test]
fn advance_covers_speed_times_time() {
    let from = Point { x: 0, y: 0 };
    assert_eq!(advance(from, Point { x: 3000, y: 4000 }, 4000, 100), Point { x: 240, y: 320 });
    assert_eq!(advance(from, Point { x: -3000, y: -4000 }, 4000, 100), Point { x: -240, y: -320 });
    assert_eq!(advance(from, Point { x: 3000, y: -4000 }, 4000, 2000), Point { x: 4800, y: -6400 });
    assert_eq!(advance(from, Point { x: 3000, y: 4000 }, -4000, 100), Point { x: -240, y: -320 });
    assert_eq!(advance(from, Point { x: 3000, y: 4000 }, 4000, 0), from);
    assert_eq!(advance(from, Point { x: 3000, y: 4000 }, 0, 100), from);
}

#[test]
fn advance_rounds_towards_zero() {
    let from = Point { x: 0, y: 0 };
    assert_eq!(advance(from, Point { x: 1000, y: 1 }, 1000, 1), Point { x: 1, y: 0 });
    assert_eq!(advance(from, Point { x: -1000, y: -1 }, 1000, 1), Point { x: -1, y: 0 });
    assert_eq!(advance(from, Point { x: 1000, y: 999 }, 1999, 1), Point { x: 0, y: 0 });
}

#[test]
fn advance_on_the_spot_stays() {
    let here = Point { x: 12, y: -7 };
    assert_eq!(advance(here, here, 4000, 100), here);
}

#[test]
fn advance_stays_on_the_plane() {
    let from = Point { x: i32::MAX - 1, y: i32::MIN + 1 };
    let to = Point { x: i32::MAX, y: i32::MIN + 1 };
    assert_eq!(advance(from, to, i64::MAX, u32::MAX), Point { x: i32::MAX, y: i32::MIN + 1 });
    assert_eq!(advance(from, to, i64::MIN, u32::MAX), Point { x: i32::MIN, y: i32::MIN + 1 });
}

#[test]
fn a_war_machine_walks_up_to_a_sheep_and_strikes_it_once() {
    let mut hostile = machine(3000, 0, idle());
    hostile.creature.speed = Speed(4000);
    let mut battle = Battle {
        sheep: vec![creature(0, 0, 20_000, 200, -800, 100_000)],
        war_machines: vec![hostile],
        timer: BattleTimer::new(15_000),
        result: BattleResult::default(),
        level: Level(1),
    };
    let quiet = vec![false];
    assert_eq!(battle.tick(100, &quiet), vec![Action::Nothing]);
    assert_eq!(battle.war_machines[0].state, walk());
    let mut x: i32 = 3000;
    while x > 1000 {
        assert_eq!(battle.tick(100, &quiet), vec![Action::Advance { target: 0, flip_x: true }]);
        x -= 400;
        assert_eq!(battle.war_machines[0].creature.position, Point { x, y: 0 });
        assert!(battle.war_machines[0].flip_x);
    }
    assert_eq!(battle.tick(100, &quiet), vec![Action::Nothing]);
    assert_eq!(battle.war_machines[0].state, attack(false));
    assert_eq!(battle.tick(100, &quiet), vec![Action::Strike { target: 0, damage: 10_000, flip_x: true }]);
    assert_eq!(battle.sheep[0].health.current, 10_000);
    assert_eq!(battle.tick(100, &quiet), vec![Action::Nothing]);
    assert_eq!(battle.tick(100, &quiet), vec![Action::Nothing]);
    assert_eq!(battle.war_machines[0].state, attack(true));
    assert_eq!(battle.sheep[0].health.current, 10_000);
    assert_eq!(battle.tick(100, &vec![true]), vec![Action::Nothing]);
    assert_eq!(battle.war_machines[0].state, idle());
    assert!(!battle.is_over());
    assert_eq!(battle.timer.elapsed, 1100);
}

#[test]
fn a_war_machine_does_not_leave_the_battlefield() {
    let mut wm = machine(6000, 6900, walk());
    wm.creature.speed = Speed(4000);
    wm.advance_on(Point { x: 9000, y: 9900 }, 1000);
    assert_eq!(wm.creature.position, Point { x: 6200, y: 7000 });
    wm.advance_on(Point { x: -9000, y: 7000 }, 10_000);
    assert_eq!(wm.creature.position, Point { x: -6200, y: 7000 });
}

#[test]
fn states_start_their_animations() {
    assert_eq!(idle().animation_cue(false), Some(true));
    assert_eq!(idle().animation_cue(true), None);
    assert_eq!(walk().animation_cue(false), Some(true));
    assert_eq!(walk().animation_cue(true), None);
    assert_eq!(attack(false).animation_cue(true), Some(false));
    assert_eq!(attack(false).animation_cue(false), Some(false));
    assert_eq!(attack(true).animation_cue(false), None);
    assert_eq!(CreatureState::Dying(Dying { has_started: false }).animation_cue(true), Some(false));
    assert_eq!(CreatureState::Dying(Dying { has_started: true }).animation_cue(false), None);
}

#[test]
fn a_new_war_machine_is_idle() {
    let body = creature(10, -20, 60_000, 10_000, 1000, 5000);
    let wm = new_war_machine(body, BehaviourType::ChasingClosest);
    assert_eq!(
        wm,
        WarMachine { creature: body, behaviour: BehaviourType::ChasingClosest, state: idle(), flip_x: false }
    );
}
