//! The engine's general laws, each stated over the same spec functions the
//! executable functions' contracts use.

use vstd::prelude::*;

use crate::cycler::next_active;
use crate::model::{EnemyView, HeroView, PartyView};
use crate::resolve::{
    apply_enemy, enemy_damage, heal_message, heal_target, spec_outcome, Outcome, HEAL_AMOUNT,
};

verus! {

/// Turn cycling skips the dead and the sleeping: whenever at least one hero
/// is alive and awake, the cycler lands on an in-range index whose hero is
/// alive and awake. (That [`crate::cycler::cycle_hero`] terminates and
/// returns exactly this index is part of its own contract.)
pub proof fn lemma_cycler_finds_eligible(p: PartyView)
    requires
        p.wf(),
        p.some_eligible(),
    ensures
        0 <= next_active(p) < 3,
        p.hero(next_active(p)).is_eligible(),
{
    let j = choose|j: int| 0 <= j < p.heroes.len() && p.heroes[j].is_eligible();
    let s = p.active_hero_index;
    assert(j == (s + 1) % 3 || j == (s + 2) % 3 || j == (s + 3) % 3);
}

/// The wake-all rule: if putting hero `i` to sleep would leave all three
/// heroes asleep at once, then immediately afterwards all three are awake.
pub proof fn lemma_wake_all(p: PartyView, i: int)
    requires
        p.wf(),
        0 <= i < 3,
        p.with_hero(i, HeroView { is_asleep: true, ..p.hero(i) }).all_asleep(),
    ensures
        forall|j: int| 0 <= j < 3 ==> !p.fallen_asleep(i).heroes[j].is_asleep,
{
}

/// Heal clamp: healing a living target raises its hit points by exactly
/// [`HEAL_AMOUNT`], clamped to the target's maximum, and touches no other
/// hero.
pub proof fn lemma_heal_clamp(p: PartyView, i: int)
    requires
        p.wf(),
        0 <= i < 3,
        p.hero(i).current_hp > 0,
    ensures
        heal_target(p, i).hero(i).current_hp == if p.hero(i).current_hp + HEAL_AMOUNT as int
            > p.hero(i).max_hp {
            p.hero(i).max_hp
        } else {
            p.hero(i).current_hp + HEAL_AMOUNT as int
        },
        forall|j: int| 0 <= j < 3 && j != i ==> heal_target(p, i).hero(j) == p.hero(j),
{
}

/// Dead-heal no-op: healing a dead target changes nothing and produces the
/// fixed refusal message, whatever name the message would have used.
pub proof fn lemma_dead_heal_noop(p: PartyView, i: int, name: Seq<char>)
    requires
        p.wf(),
        0 <= i < 3,
        p.hero(i).current_hp <= 0,
    ensures
        heal_target(p, i) == p,
        heal_message(p, i, name) == "Priest cannot raise the dead"@,
{
}

/// Damage reduction stacking: the enemy's attack deals exactly 1 to a
/// blocking, shielded Warrior (both reductions apply independently) and
/// exactly 5 to an unshielded, non-blocking hero; and the attack subtracts
/// exactly that amount from the active hero's hit points.
pub proof fn lemma_damage_reduction_stacking(p: PartyView)
    requires
        p.wf(),
    ensures
        p.active_hero_index == 0 && p.is_blocking && p.active().shield_charges > 0
            ==> enemy_damage(p) == 1,
        !(p.active_hero_index == 0 && p.is_blocking) && p.active().shield_charges == 0
            ==> enemy_damage(p) == 5,
        apply_enemy(p).active().current_hp == p.active().current_hp - enemy_damage(p),
{
}

/// Win precedence: a dead enemy is a win, even if the same resolution left
/// the whole party dead — the enemy check comes first.
pub proof fn lemma_win_precedence(p: PartyView, e: EnemyView)
    requires
        e.current_hp <= 0,
    ensures
        spec_outcome(p, e) == Outcome::Win,
{
}

} // verus!
