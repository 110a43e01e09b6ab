use battle_engine::engine::{BattleState, Engine, EngineError, InfoPanelState};
use battle_engine::model::{Enemy, Hero, Party};

fn hero(current_hp: isize, max_hp: isize, is_asleep: bool, shield_charges: usize) -> Hero {
    Hero { current_hp, max_hp, is_asleep, shield_charges }
}

fn engine(
    heroes: [Hero; 3],
    active_hero_index: usize,
    is_blocking: bool,
    enemy_hp: isize,
    battle_state: BattleState,
    panel_state: InfoPanelState,
    timer: Option<u64>,
) -> Engine {
    Engine {
        party: Party {
            heroes: vec![heroes[0], heroes[1], heroes[2]],
            active_hero_index,
            is_blocking,
        },
        enemy: Enemy {
            current_hp: enemy_hp,
            max_hp: 10,
            name: "Rat".to_string(),
        },
        battle_state,
        panel_state,
        timer,
        message: String::new(),
    }
}

#[test]
fn new_engine_starts_in_the_menu() {
    let e = Engine::new();
    assert_eq!(e.battle_state, BattleState::Player);
    assert_eq!(e.panel_state, InfoPanelState::Menu);
    assert_eq!(e.timer, None);
    assert_eq!(e.message, "");
    assert_eq!(e.party.active_hero_index, 0);
    assert_eq!(e.enemy.current_hp, 10);
    assert_eq!(e.enemy.name, "Rat");
}

#[test]
fn full_cycle_returns_to_the_menu_with_the_next_hero() {
    let mut e = Engine::new();

    // Hero 0 attacks: the feedback panel comes up in the player phase.
    assert!(e.select(0));
    assert_eq!(e.battle_state, BattleState::Player);
    assert_eq!(e.panel_state, InfoPanelState::Battle);
    assert_eq!(e.timer, Some(3));
    assert_eq!(e.message, "Warrior attacks for 1 damage!");
    assert_eq!(e.enemy.current_hp, 9);

    // The timer expires: the enemy phase resolves at once.
    assert_eq!(e.tick(3), Ok(()));
    assert_eq!(e.battle_state, BattleState::Enemy);
    assert_eq!(e.panel_state, InfoPanelState::Battle);
    assert_eq!(e.message, "Rat attacks for 5 damage!");
    assert_eq!(e.party.heroes[0].current_hp, 5);
    assert_eq!(e.timer, Some(3));

    // The timer expires again: cleanup, cycle, and back to the menu.
    assert_eq!(e.tick(3), Ok(()));
    assert_eq!(e.battle_state, BattleState::Player);
    assert_eq!(e.panel_state, InfoPanelState::Menu);
    assert_eq!(e.timer, None);
    assert!(e.party.heroes[0].is_asleep);
    assert_eq!(e.party.active_hero_index, 1);
}

#[test]
fn selection_is_ignored_outside_the_menu() {
    let mut e = Engine::new();
    assert!(e.select(0));
    // The feedback panel is up: a second selection must be rejected.
    let before_hp = e.enemy.current_hp;
    assert!(!e.select(1));
    assert_eq!(e.enemy.current_hp, before_hp);
    assert_eq!(e.message, "Warrior attacks for 1 damage!");
    assert_eq!(e.timer, Some(3));
}

#[test]
fn cycle_hero_option_keeps_the_menu_up() {
    let mut e = Engine::new();
    assert!(e.select(3));
    assert_eq!(e.party.active_hero_index, 1);
    assert_eq!(e.battle_state, BattleState::Player);
    assert_eq!(e.panel_state, InfoPanelState::Menu);
    assert_eq!(e.timer, None);
}

#[test]
fn ticks_without_a_timer_change_nothing() {
    let mut e = Engine::new();
    assert_eq!(e.tick(10), Ok(()));
    assert_eq!(e.battle_state, BattleState::Player);
    assert_eq!(e.panel_state, InfoPanelState::Menu);
    assert_eq!(e.timer, None);
}

#[test]
fn short_ticks_only_count_the_timer_down() {
    let mut e = Engine::new();
    assert!(e.select(0));
    assert_eq!(e.tick(1), Ok(()));
    assert_eq!(e.timer, Some(2));
    assert_eq!(e.battle_state, BattleState::Player);
    assert_eq!(e.tick(1), Ok(()));
    assert_eq!(e.timer, Some(1));
    // The last unit fires the transition.
    assert_eq!(e.tick(1), Ok(()));
    assert_eq!(e.battle_state, BattleState::Enemy);
}

#[test]
fn reckless_attack_kill_is_a_win() {
    let mut e = engine(
        [hero(3, 10, false, 0), hero(20, 20, false, 0), hero(10, 10, false, 0)],
        0,
        false,
        3,
        BattleState::Player,
        InfoPanelState::Menu,
        None,
    );
    assert!(e.select(1));
    assert_eq!(e.enemy.current_hp, 0);
    assert_eq!(e.party.heroes[0].current_hp, 0);
    assert_eq!(e.battle_state, BattleState::Win);
    assert_eq!(
        e.message,
        "Warrior recklessly attacks for 3 damage! Also receives the same damage!"
    );

    // The terminal timer expiry only updates the banner.
    assert_eq!(e.tick(3), Ok(()));
    assert_eq!(e.message, "You win!");
    assert_eq!(e.timer, None);
    assert_eq!(e.battle_state, BattleState::Win);

    // The terminal state never advances further.
    assert_eq!(e.tick(3), Ok(()));
    assert_eq!(e.battle_state, BattleState::Win);
    assert!(!e.select(0));
}

#[test]
fn party_wipe_without_a_kill_is_a_loss() {
    let mut e = engine(
        [hero(2, 10, false, 0), hero(0, 20, false, 0), hero(0, 10, false, 0)],
        0,
        false,
        10,
        BattleState::Player,
        InfoPanelState::Menu,
        None,
    );
    // The last hero attacks, then the enemy's counter fells them.
    assert!(e.select(0));
    assert_eq!(e.enemy.current_hp, 9);
    assert_eq!(e.battle_state, BattleState::Player);
    assert_eq!(e.tick(3), Ok(()));
    assert_eq!(e.party.heroes[0].current_hp, -3);
    assert_eq!(e.battle_state, BattleState::Lose);
    assert_eq!(e.message, "Rat attacks for 5 damage!");

    assert_eq!(e.tick(3), Ok(()));
    assert_eq!(e.message, "You lose!");
    assert_eq!(e.timer, None);
    assert_eq!(e.battle_state, BattleState::Lose);
}

#[test]
fn shield_decays_once_per_enemy_phase_on_the_shielded_hero() {
    let mut e = Engine::new();

    // The Warrior hands the turn to the Mage, who shields the Warrior.
    assert!(e.select(3));
    assert_eq!(e.party.active_hero_index, 1);
    assert!(e.select(1));
    assert_eq!(e.party.heroes[0].shield_charges, 2);
    assert_eq!(e.message, "Mage cast shield on Warrior!");

    // The enemy phase targets the Mage: the Warrior's shield keeps both
    // charges, and the Mage falls asleep.
    assert_eq!(e.tick(3), Ok(()));
    assert_eq!(e.party.heroes[1].current_hp, 15);
    assert_eq!(e.tick(3), Ok(()));
    assert_eq!(e.party.heroes[0].shield_charges, 2);
    assert_eq!(e.party.active_hero_index, 2);

    // The Priest hands the turn to the Warrior, whose enemy phase spends
    // one charge: the attack is reduced to 3, and afterwards one charge is
    // left.
    assert!(e.select(3));
    assert_eq!(e.party.active_hero_index, 0);
    assert!(e.select(0));
    assert_eq!(e.tick(3), Ok(()));
    assert_eq!(e.party.heroes[0].current_hp, 7);
    assert_eq!(e.message, "Rat attacks for 3 damage!");
    assert_eq!(e.tick(3), Ok(()));
    assert_eq!(e.party.heroes[0].shield_charges, 1);
    assert_eq!(e.party.active_hero_index, 2);

    // The Priest's turn ends with the whole party asleep, so everyone
    // wakes and the Warrior acts again.
    assert!(e.select(2));
    assert_eq!(e.tick(3), Ok(()));
    assert_eq!(e.tick(3), Ok(()));
    assert!(!e.party.heroes[0].is_asleep);
    assert!(!e.party.heroes[1].is_asleep);
    assert!(!e.party.heroes[2].is_asleep);
    assert_eq!(e.party.active_hero_index, 0);

    // The Warrior's second enemy phase spends the last charge.
    assert!(e.select(0));
    assert_eq!(e.tick(3), Ok(()));
    assert_eq!(e.party.heroes[0].current_hp, 4);
    assert_eq!(e.message, "Rat attacks for 3 damage!");
    assert_eq!(e.tick(3), Ok(()));
    assert_eq!(e.party.heroes[0].shield_charges, 0);
}

#[test]
fn exhausted_cycler_is_reported_and_leaves_the_engine_untouched() {
    // A dead but awake hero alongside two sleepers: the wake-all rule does
    // not fire (the dead hero's flag is clear), yet nobody is eligible.
    let mut e = engine(
        [hero(0, 10, false, 0), hero(20, 20, true, 0), hero(10, 10, false, 0)],
        2,
        false,
        5,
        BattleState::Enemy,
        InfoPanelState::Battle,
        Some(1),
    );
    assert_eq!(e.tick(1), Err(EngineError::NoEligibleHero));
    assert_eq!(e.party.active_hero_index, 2);
    assert!(!e.party.heroes[2].is_asleep);
    assert_eq!(e.timer, Some(1));
    assert_eq!(e.battle_state, BattleState::Enemy);
}

#[test]
fn menu_labels_follow_the_active_hero() {
    let mut e = Engine::new();
    assert_eq!(e.active_menu_label(0), "Attack");
    assert_eq!(e.active_menu_label(3), "Cycle Hero");
    assert!(e.select(3));
    assert_eq!(e.active_menu_label(0), "Magic Missle");
    assert!(e.select(3));
    assert_eq!(e.active_menu_label(2), "Heal Self");
}
