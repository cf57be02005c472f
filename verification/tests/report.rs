use war_sheep::battle_report::{BattleResult, BattleStatus};
use war_sheep::geometry::Point;
use war_sheep::sheep::{spawn_sheep, Sheep, SheepLevels};
use war_sheep::utils::{Attack, Health, Speed};

fn result(status: BattleStatus, gained: usize) -> BattleResult {
    BattleResult {
        battle_status: status,
        war_machines_slain: 0,
        sheep_slain: 0,
        level_reward_sheep_gained: gained,
    }
}

#[test]
fn the_victory_text_names_the_reward() {
    assert_eq!(
        result(BattleStatus::Victory, 5).status_text(),
        "            You won!\n\n  Baaaa bye angry war machines!\n\n\n       You gain 5 new sheep!\n\n\n     Press SPACE to continue."
    );
    assert_eq!(
        result(BattleStatus::Victory, 0).status_text(),
        "            You won!\n\n  Baaaa bye angry war machines!\n\n\n       You gain 0 new sheep!\n\n\n     Press SPACE to continue."
    );
    assert_eq!(
        result(BattleStatus::Victory, 1207).status_text(),
        "            You won!\n\n  Baaaa bye angry war machines!\n\n\n       You gain 1207 new sheep!\n\n\n     Press SPACE to continue."
    );
}

#[test]
fn the_other_texts_name_no_reward() {
    assert_eq!(
        result(BattleStatus::GameOver, 5).status_text(),
        "           Game over! :(\n\n\n   Press SPACE to start a new game!"
    );
    assert_eq!(
        result(BattleStatus::Draw, 5).status_text(),
        "           Time ran out!\n\nYou can face the war machines again\n  until all of your sheep are gone!\n\n\n     Press SPACE to continue."
    );
    assert_eq!(
        result(BattleStatus::StillPlaying, 5).status_text(),
        "Something unexpected happen. You should still be playing the game!"
    );
}

#[test]
fn a_spawned_sheep_has_the_stats_of_its_levels() {
    let sheep = Sheep { color: 900, levels: SheepLevels { base: 2, spear: 1, tank: 1, medic: 0 } };
    let unit = spawn_sheep(Point { x: -40, y: 12 }, &sheep, 2000);
    assert_eq!(unit.position, Point { x: -40, y: 12 });
    assert_eq!(unit.health, Health { current: 80_000, max: 80_000 });
    assert_eq!(unit.speed, Speed(3000));
    assert_eq!(unit.attack, Attack { attack_damage: 500, attack_range: 1200, spotting_range: 300_000 });
}
