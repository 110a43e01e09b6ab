use battle_engine::cycler::cycle_hero;
use battle_engine::model::{Enemy, Hero, Party};

fn hero(current_hp: isize, max_hp: isize, is_asleep: bool, shield_charges: usize) -> Hero {
    Hero { current_hp, max_hp, is_asleep, shield_charges }
}

fn party(heroes: [Hero; 3], active_hero_index: usize, is_blocking: bool) -> Party {
    Party { heroes: vec![heroes[0], heroes[1], heroes[2]], active_hero_index, is_blocking }
}

#[test]
fn default_party_has_fixed_stats() {
    let p = Party::default();
    assert_eq!(p.heroes.len(), 3);
    assert_eq!(p.heroes[0].current_hp, 10);
    assert_eq!(p.heroes[0].max_hp, 10);
    assert_eq!(p.heroes[1].current_hp, 20);
    assert_eq!(p.heroes[1].max_hp, 20);
    assert_eq!(p.heroes[2].current_hp, 10);
    assert_eq!(p.heroes[2].max_hp, 10);
    assert_eq!(p.active_hero_index, 0);
    assert!(!p.is_blocking);
    for h in &p.heroes {
        assert!(!h.is_asleep);
        assert_eq!(h.shield_charges, 0);
    }
}

#[test]
fn enemy_new_starts_at_full_health() {
    let e = Enemy::new("Rat", 10);
    assert_eq!(e.current_hp, 10);
    assert_eq!(e.max_hp, 10);
    assert_eq!(e.name, "Rat");
}

#[test]
fn cycle_advances_to_next_hero() {
    let mut p = Party::default();
    cycle_hero(&mut p);
    assert_eq!(p.active_hero_index, 1);
    cycle_hero(&mut p);
    assert_eq!(p.active_hero_index, 2);
    cycle_hero(&mut p);
    assert_eq!(p.active_hero_index, 0);
}

#[test]
fn cycle_skips_dead_hero() {
    let mut p = party(
        [hero(10, 10, false, 0), hero(0, 20, false, 0), hero(10, 10, false, 0)],
        0,
        false,
    );
    cycle_hero(&mut p);
    assert_eq!(p.active_hero_index, 2);
}

#[test]
fn cycle_skips_sleeping_hero() {
    let mut p = party(
        [hero(10, 10, false, 0), hero(20, 20, true, 0), hero(10, 10, false, 0)],
        0,
        false,
    );
    cycle_hero(&mut p);
    assert_eq!(p.active_hero_index, 2);
}

#[test]
fn cycle_wraps_back_to_only_eligible_hero() {
    let mut p = party(
        [hero(10, 10, false, 0), hero(0, 20, false, 0), hero(10, 10, true, 0)],
        0,
        false,
    );
    cycle_hero(&mut p);
    assert_eq!(p.active_hero_index, 0);
}

#[test]
fn set_asleep_marks_one_hero() {
    let mut p = Party::default();
    p.set_asleep(1);
    assert!(!p.heroes[0].is_asleep);
    assert!(p.heroes[1].is_asleep);
    assert!(!p.heroes[2].is_asleep);
}

#[test]
fn set_asleep_wakes_all_when_last_falls_asleep() {
    let mut p = party(
        [hero(10, 10, true, 0), hero(20, 20, true, 0), hero(10, 10, false, 0)],
        2,
        false,
    );
    p.set_asleep(2);
    assert!(!p.heroes[0].is_asleep);
    assert!(!p.heroes[1].is_asleep);
    assert!(!p.heroes[2].is_asleep);
}

#[test]
fn set_asleep_keeps_hit_points_and_shields() {
    let mut p = party(
        [hero(7, 10, false, 2), hero(20, 20, true, 0), hero(-2, 10, false, 1)],
        0,
        true,
    );
    p.set_asleep(0);
    assert_eq!(p.heroes[0].current_hp, 7);
    assert_eq!(p.heroes[0].shield_charges, 2);
    assert_eq!(p.heroes[2].current_hp, -2);
    assert_eq!(p.heroes[2].shield_charges, 1);
    assert!(p.is_blocking);
    assert_eq!(p.active_hero_index, 0);
}

#[test]
fn dead_and_sleep_queries_are_derived_from_the_model() {
    let p = party(
        [hero(0, 10, false, 0), hero(-3, 20, true, 0), hero(1, 10, false, 0)],
        2,
        false,
    );
    assert!(p.hero_is_dead(0));
    assert!(p.hero_is_dead(1));
    assert!(!p.hero_is_dead(2));
    assert!(!p.hero_is_asleep(0));
    assert!(p.hero_is_asleep(1));
    assert!(!p.hero_is_asleep(2));
}

#[test]
fn status_labels_rank_death_over_sleep() {
    let p = party(
        [hero(0, 10, true, 0), hero(20, 20, true, 0), hero(1, 10, false, 0)],
        2,
        false,
    );
    assert_eq!(p.hero_status_label(0), "DEAD");
    assert_eq!(p.hero_status_label(1), "SLEEP");
    assert_eq!(p.hero_status_label(2), "");
}
