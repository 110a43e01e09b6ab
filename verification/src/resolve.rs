//! The resolution engine: applies one action's effect to the combatant
//! model, produces the feedback message, and computes the battle outcome.

use vstd::prelude::*;
use vstd::string::StringExecFns;

use crate::actions::{ActionEvent, MageAction, PlayerAction, PriestAction, WarriorAction};
use crate::model::{Enemy, EnemyView, Hero, HeroView, Party, PartyView};

verus! {

pub const ENEMY_ATTACK_DAMAGE: isize = 5;

pub const MAGIC_MISSLE_DAMAGE: isize = 2;

pub const ATTACK_DAMAGE: isize = 1;

pub const RECKLESS_ATTACK_DAMAGE: isize = 3;

pub const HEAL_AMOUNT: isize = 3;

/// Enemy turns a fresh shield lasts.
pub const SHIELD_TURNS: usize = 2;

/// Damage the enemy's attack loses against a blocking Warrior.
pub const BLOCK_REDUCTION: isize = 2;

/// Damage the enemy's attack loses against a shielded hero.
pub const SHIELD_REDUCTION: isize = 2;

/// The outcome computed after every resolution. `Win` and `Lose` are
/// terminal; `Win` takes precedence when both sides fall in the same
/// resolution.
#[derive(Clone, Copy, Debug, PartialEq, Eq, Structural)]
pub enum Outcome {
    Continue,
    Lose,
    Win,
}

/// Healing hero `i`: a dead target is left untouched; a living one gains
/// [`HEAL_AMOUNT`] hit points, clamped to its maximum.
pub open spec fn heal_target(p: PartyView, i: int) -> PartyView {
    let h = p.hero(i);
    if h.current_hp <= 0 {
        p
    } else {
        let raised = h.current_hp + HEAL_AMOUNT as int;
        let hp = if raised > h.max_hp {
            h.max_hp
        } else {
            raised
        };
        p.with_hero(i, HeroView { current_hp: hp, ..h })
    }
}

/// The message healing hero `i` (called `name` in the message) produces.
pub open spec fn heal_message(p: PartyView, i: int, name: Seq<char>) -> Seq<char> {
    if p.hero(i).current_hp <= 0 {
        "Priest cannot raise the dead"@
    } else {
        "Priest heals "@ + name + " for 3!"@
    }
}

/// The effect of one player action on the party and the enemy.
pub open spec fn apply_player(a: PlayerAction, p: PartyView, e: EnemyView) -> (PartyView, EnemyView) {
    match a {
        PlayerAction::Warrior(WarriorAction::Attack) => (
            p,
            EnemyView { current_hp: e.current_hp - ATTACK_DAMAGE as int, ..e },
        ),
        PlayerAction::Warrior(WarriorAction::Reckless) => (
            p.with_hero(
                0,
                HeroView { current_hp: p.hero(0).current_hp - RECKLESS_ATTACK_DAMAGE as int, ..p.hero(0) },
            ),
            EnemyView { current_hp: e.current_hp - RECKLESS_ATTACK_DAMAGE as int, ..e },
        ),
        PlayerAction::Warrior(WarriorAction::Block) => (PartyView { is_blocking: true, ..p }, e),
        PlayerAction::Mage(MageAction::Missle) => (
            p,
            EnemyView { current_hp: e.current_hp - MAGIC_MISSLE_DAMAGE as int, ..e },
        ),
        PlayerAction::Mage(MageAction::ShieldWarrior) => (
            p.with_hero(0, HeroView { shield_charges: SHIELD_TURNS as int, ..p.hero(0) }),
            e,
        ),
        PlayerAction::Mage(MageAction::ShieldPriest) => (
            p.with_hero(2, HeroView { shield_charges: SHIELD_TURNS as int, ..p.hero(2) }),
            e,
        ),
        PlayerAction::Priest(PriestAction::HealWarrior) => (heal_target(p, 0), e),
        PlayerAction::Priest(PriestAction::HealMage) => (heal_target(p, 1), e),
        PlayerAction::Priest(PriestAction::HealSelf) => (heal_target(p, 2), e),
    }
}

/// The feedback message one player action produces.
pub open spec fn player_message(a: PlayerAction, p: PartyView) -> Seq<char> {
    match a {
        PlayerAction::Warrior(WarriorAction::Attack) => "Warrior attacks for 1 damage!"@,
        PlayerAction::Warrior(WarriorAction::Reckless) =>
            "Warrior recklessly attacks for 3 damage! Also receives the same damage!"@,
        PlayerAction::Warrior(WarriorAction::Block) => "Warrior blocks!"@,
        PlayerAction::Mage(MageAction::Missle) => "Mage cast Magic Missle for 2 damage!"@,
        PlayerAction::Mage(MageAction::ShieldWarrior) => "Mage cast shield on Warrior!"@,
        PlayerAction::Mage(MageAction::ShieldPriest) => "Mage cast shield on Priest!"@,
        PlayerAction::Priest(PriestAction::HealWarrior) => heal_message(p, 0, "Warrior"@),
        PlayerAction::Priest(PriestAction::HealMage) => heal_message(p, 1, "Mage"@),
        PlayerAction::Priest(PriestAction::HealSelf) => heal_message(p, 2, "self"@),
    }
}

/// The damage the enemy's fixed attack deals to the active hero: the base
/// amount, reduced by 2 if the active hero is the blocking Warrior, and
/// independently reduced by a further 2 if the active hero is shielded.
pub open spec fn enemy_damage(p: PartyView) -> int {
    ENEMY_ATTACK_DAMAGE as int - (
        if p.active_hero_index == 0 && p.is_blocking {
            BLOCK_REDUCTION as int
        } else {
            0
        }
    ) - (
        if p.active().shield_charges > 0 {
            SHIELD_REDUCTION as int
        } else {
            0
        }
    )
}

/// The effect of the enemy's fixed attack: the active hero loses
/// [`enemy_damage`] hit points.
pub open spec fn apply_enemy(p: PartyView) -> PartyView {
    p.with_hero(
        p.active_hero_index,
        HeroView { current_hp: p.active().current_hp - enemy_damage(p), ..p.active() },
    )
}

/// The feedback message the enemy's attack produces. The damage is always
/// 5, 3 or 1: the base amount less none, one or both reductions.
pub open spec fn enemy_message(p: PartyView) -> Seq<char> {
    let d = enemy_damage(p);
    if d == 1 {
        "Rat attacks for 1 damage!"@
    } else if d == 3 {
        "Rat attacks for 3 damage!"@
    } else {
        "Rat attacks for 5 damage!"@
    }
}

/// The effect of one resolvable event on the combatant model.
pub open spec fn apply_event(ev: ActionEvent, p: PartyView, e: EnemyView) -> (PartyView, EnemyView) {
    match ev {
        ActionEvent::Player(a) => apply_player(a, p, e),
        ActionEvent::Enemy => (apply_enemy(p), e),
    }
}

/// The feedback message one resolvable event produces.
pub open spec fn event_message(ev: ActionEvent, p: PartyView) -> Seq<char> {
    match ev {
        ActionEvent::Player(a) => player_message(a, p),
        ActionEvent::Enemy => enemy_message(p),
    }
}

/// The outcome after a resolution: the battle is won as soon as the enemy
/// is dead, lost only if the enemy survives and the whole party is dead,
/// and continues otherwise. The enemy check comes first, so a resolution
/// that fells both sides is a win.
pub open spec fn spec_outcome(p: PartyView, e: EnemyView) -> Outcome {
    if e.current_hp <= 0 {
        Outcome::Win
    } else if p.all_dead() {
        Outcome::Lose
    } else {
        Outcome::Continue
    }
}

/// The machine-width bounds under which one event resolves without
/// overflow. Every bound is far outside the range the engine keeps hit
/// points in; they only rule out values at the very edge of `isize`.
pub open spec fn event_fits(ev: ActionEvent, p: PartyView, e: EnemyView) -> bool {
    match ev {
        ActionEvent::Player(PlayerAction::Warrior(WarriorAction::Attack)) =>
            e.current_hp - ATTACK_DAMAGE as int >= isize::MIN,
        ActionEvent::Player(PlayerAction::Warrior(WarriorAction::Reckless)) =>
            e.current_hp - RECKLESS_ATTACK_DAMAGE as int >= isize::MIN
                && p.hero(0).current_hp - RECKLESS_ATTACK_DAMAGE as int >= isize::MIN,
        ActionEvent::Player(PlayerAction::Warrior(WarriorAction::Block)) => true,
        ActionEvent::Player(PlayerAction::Mage(MageAction::Missle)) =>
            e.current_hp - MAGIC_MISSLE_DAMAGE as int >= isize::MIN,
        ActionEvent::Player(PlayerAction::Mage(MageAction::ShieldWarrior)) => true,
        ActionEvent::Player(PlayerAction::Mage(MageAction::ShieldPriest)) => true,
        ActionEvent::Player(PlayerAction::Priest(PriestAction::HealWarrior)) =>
            p.hero(0).current_hp + HEAL_AMOUNT as int <= isize::MAX,
        ActionEvent::Player(PlayerAction::Priest(PriestAction::HealMage)) =>
            p.hero(1).current_hp + HEAL_AMOUNT as int <= isize::MAX,
        ActionEvent::Player(PlayerAction::Priest(PriestAction::HealSelf)) =>
            p.hero(2).current_hp + HEAL_AMOUNT as int <= isize::MAX,
        ActionEvent::Enemy => p.active().current_hp - ENEMY_ATTACK_DAMAGE as int >= isize::MIN,
    }
}

/// Heal hero `hero` (named `hero_name` in the message): a dead target is
/// refused with a fixed message and no change; a living one gains
/// [`HEAL_AMOUNT`] hit points, clamped to its maximum.
pub fn heal_action(hero: usize, hero_name: &str, party: &mut Party) -> (msg: String)
    requires
        old(party)@.wf(),
        hero < 3,
        old(party)@.hero(hero as int).current_hp + HEAL_AMOUNT as int <= isize::MAX,
    ensures
        final(party)@ == heal_target(old(party)@, hero as int),
        msg@ == heal_message(old(party)@, hero as int, hero_name@),
{
    if party.heroes[hero].current_hp <= 0 {
        return "Priest cannot raise the dead".to_owned();
    }

    let mut h = party.heroes[hero];
    h.current_hp = h.current_hp + HEAL_AMOUNT;
    if h.current_hp > h.max_hp {
        h.current_hp = h.max_hp;
    }
    party.heroes[hero] = h;
    proof {
        assert(party@ =~= heal_target(old(party)@, hero as int));
    }

    let mut msg: String = "Priest heals ".to_owned();
    msg.append(hero_name);
    msg.append(" for 3!");
    msg
}

/// Apply one player action to the model and return its feedback message.
pub fn apply_player_action(action: &PlayerAction, party: &mut Party, enemy: &mut Enemy) -> (msg: String)
    requires
        old(party)@.wf(),
        event_fits(ActionEvent::Player(*action), old(party)@, old(enemy)@),
    ensures
        final(party)@ == apply_player(*action, old(party)@, old(enemy)@).0,
        final(enemy)@ == apply_player(*action, old(party)@, old(enemy)@).1,
        msg@ == player_message(*action, old(party)@),
{
    match action {
        PlayerAction::Warrior(WarriorAction::Attack) => {
            enemy.current_hp = enemy.current_hp - ATTACK_DAMAGE;
            proof {
                assert(enemy@ =~= apply_player(*action, old(party)@, old(enemy)@).1);
            }
            "Warrior attacks for 1 damage!".to_owned()
        },
        PlayerAction::Warrior(WarriorAction::Reckless) => {
            enemy.current_hp = enemy.current_hp - RECKLESS_ATTACK_DAMAGE;
            let mut h = party.heroes[0];
            h.current_hp = h.current_hp - RECKLESS_ATTACK_DAMAGE;
            party.heroes[0] = h;
            proof {
                assert(party@ =~= apply_player(*action, old(party)@, old(enemy)@).0);
                assert(enemy@ =~= apply_player(*action, old(party)@, old(enemy)@).1);
            }
            "Warrior recklessly attacks for 3 damage! Also receives the same damage!".to_owned()
        },
        PlayerAction::Warrior(WarriorAction::Block) => {
            party.is_blocking = true;
            proof {
                assert(party@ =~= apply_player(*action, old(party)@, old(enemy)@).0);
            }
            "Warrior blocks!".to_owned()
        },
        PlayerAction::Mage(MageAction::Missle) => {
            enemy.current_hp = enemy.current_hp - MAGIC_MISSLE_DAMAGE;
            proof {
                assert(enemy@ =~= apply_player(*action, old(party)@, old(enemy)@).1);
            }
            "Mage cast Magic Missle for 2 damage!".to_owned()
        },
        PlayerAction::Mage(MageAction::ShieldWarrior) => {
            let mut h = party.heroes[0];
            h.shield_charges = SHIELD_TURNS;
            party.heroes[0] = h;
            proof {
                assert(party@ =~= apply_player(*action, old(party)@, old(enemy)@).0);
            }
            "Mage cast shield on Warrior!".to_owned()
        },
        PlayerAction::Mage(MageAction::ShieldPriest) => {
            let mut h = party.heroes[2];
            h.shield_charges = SHIELD_TURNS;
            party.heroes[2] = h;
            proof {
                assert(party@ =~= apply_player(*action, old(party)@, old(enemy)@).0);
            }
            "Mage cast shield on Priest!".to_owned()
        },
        PlayerAction::Priest(PriestAction::HealWarrior) => heal_action(0, "Warrior", party),
        PlayerAction::Priest(PriestAction::HealMage) => heal_action(1, "Mage", party),
        PlayerAction::Priest(PriestAction::HealSelf) => heal_action(2, "self", party),
    }
}

/// Apply the enemy's fixed attack to the active hero and return its
/// feedback message.
pub fn apply_enemy_action(party: &mut Party) -> (msg: String)
    requires
        old(party)@.wf(),
        old(party)@.active().current_hp - ENEMY_ATTACK_DAMAGE as int >= isize::MIN,
    ensures
        final(party)@ == apply_enemy(old(party)@),
        msg@ == enemy_message(old(party)@),
{
    let current = party.active_hero_index;
    let mut damage: isize = ENEMY_ATTACK_DAMAGE;

    if current == 0 && party.is_blocking {
        damage = damage - BLOCK_REDUCTION;
    }

    if party.heroes[current].shield_charges > 0 {
        damage = damage - SHIELD_REDUCTION;
    }

    let mut h = party.heroes[current];
    h.current_hp = h.current_hp - damage;
    party.heroes[current] = h;
    proof {
        assert(party@ =~= apply_enemy(old(party)@));
    }

    if damage == 1 {
        "Rat attacks for 1 damage!".to_owned()
    } else if damage == 3 {
        "Rat attacks for 3 damage!".to_owned()
    } else {
        "Rat attacks for 5 damage!".to_owned()
    }
}

/// Compute the outcome of the battle as it stands.
pub fn battle_outcome(party: &Party, enemy: &Enemy) -> (o: Outcome)
    requires
        party@.wf(),
    ensures
        o == spec_outcome(party@, enemy@),
{
    if enemy.current_hp <= 0 {
        Outcome::Win
    } else if party.heroes[0].current_hp <= 0 && party.heroes[1].current_hp <= 0
        && party.heroes[2].current_hp <= 0 {
        proof {
            assert forall|i: int| 0 <= i < party@.heroes.len() implies party@.heroes[i].current_hp
                <= 0 by {
                assert(party@.heroes[0].current_hp <= 0);
                assert(party@.heroes[1].current_hp <= 0);
                assert(party@.heroes[2].current_hp <= 0);
            }
        }
        Outcome::Lose
    } else {
        proof {
            if party@.heroes[0].current_hp > 0 {
                assert(!party@.all_dead());
            } else if party@.heroes[1].current_hp > 0 {
                assert(!party@.all_dead());
            } else {
                assert(party@.heroes[2].current_hp > 0);
                assert(!party@.all_dead());
            }
        }
        Outcome::Continue
    }
}

/// Resolve one event: apply its effect, then compute the outcome. Returns
/// the feedback message and the outcome.
pub fn resolve_event(event: &ActionEvent, party: &mut Party, enemy: &mut Enemy) -> (r: (
    String,
    Outcome,
))
    requires
        old(party)@.wf(),
        event_fits(*event, old(party)@, old(enemy)@),
    ensures
        final(party)@ == apply_event(*event, old(party)@, old(enemy)@).0,
        final(enemy)@ == apply_event(*event, old(party)@, old(enemy)@).1,
        r.0@ == event_message(*event, old(party)@),
        r.1 == spec_outcome(final(party)@, final(enemy)@),
{
    let msg = match event {
        ActionEvent::Player(a) => apply_player_action(a, party, enemy),
        ActionEvent::Enemy => apply_enemy_action(party),
    };
    let outcome = battle_outcome(party, enemy);
    (msg, outcome)
}

} // verus!
