//! The action catalogue: the closed set of selectable player actions per
//! hero class, the menu labels, and the menu-cursor movement. Menu option 3
//! ("Cycle Hero") is universal; it reruns the cycler instead of resolving.

use vstd::prelude::*;

verus! {

#[derive(Clone, Copy, Debug, PartialEq, Eq, Structural)]
pub enum WarriorAction {
    Attack,
    Reckless,
    Block,
}

#[derive(Clone, Copy, Debug, PartialEq, Eq, Structural)]
pub enum MageAction {
    Missle,
    ShieldPriest,
    ShieldWarrior,
}

#[derive(Clone, Copy, Debug, PartialEq, Eq, Structural)]
pub enum PriestAction {
    HealMage,
    HealSelf,
    HealWarrior,
}

#[derive(Clone, Copy, Debug, PartialEq, Eq, Structural)]
pub enum PlayerAction {
    Mage(MageAction),
    Priest(PriestAction),
    Warrior(WarriorAction),
}

/// One resolvable action: either a player's choice or the enemy's fixed
/// attack.
#[derive(Clone, Copy, Debug, PartialEq, Eq, Structural)]
pub enum ActionEvent {
    Enemy,
    Player(PlayerAction),
}

/// The catalogue lookup: which concrete action menu option `option` (0..=2)
/// selects for the hero at index `active` (Warrior 0, Mage 1, Priest 2).
pub open spec fn action_for(active: int, option: int) -> PlayerAction {
    if active == 0 {
        PlayerAction::Warrior(
            if option == 0 {
                WarriorAction::Attack
            } else if option == 1 {
                WarriorAction::Reckless
            } else {
                WarriorAction::Block
            },
        )
    } else if active == 1 {
        PlayerAction::Mage(
            if option == 0 {
                MageAction::Missle
            } else if option == 1 {
                MageAction::ShieldWarrior
            } else {
                MageAction::ShieldPriest
            },
        )
    } else {
        PlayerAction::Priest(
            if option == 0 {
                PriestAction::HealWarrior
            } else if option == 1 {
                PriestAction::HealMage
            } else {
                PriestAction::HealSelf
            },
        )
    }
}

/// Resolve a combat menu option (0..=2; option 3 is "Cycle Hero" and selects
/// no action) to the concrete action of the active hero's class.
pub fn select_action(active: usize, option: usize) -> (a: PlayerAction)
    requires
        active < 3,
        option < 3,
    ensures
        a == action_for(active as int, option as int),
{
    if active == 0 {
        PlayerAction::Warrior(
            if option == 0 {
                WarriorAction::Attack
            } else if option == 1 {
                WarriorAction::Reckless
            } else {
                WarriorAction::Block
            },
        )
    } else if active == 1 {
        PlayerAction::Mage(
            if option == 0 {
                MageAction::Missle
            } else if option == 1 {
                MageAction::ShieldWarrior
            } else {
                MageAction::ShieldPriest
            },
        )
    } else {
        PlayerAction::Priest(
            if option == 0 {
                PriestAction::HealWarrior
            } else if option == 1 {
                PriestAction::HealMage
            } else {
                PriestAction::HealSelf
            },
        )
    }
}

/// The menu caption for option `option` of the hero at index `hero`.
pub open spec fn menu_caption(hero: int, option: int) -> Seq<char> {
    if option == 3 {
        "Cycle Hero"@
    } else if hero == 0 {
        if option == 0 {
            "Attack"@
        } else if option == 1 {
            "Reckless Attack"@
        } else {
            "Block"@
        }
    } else if hero == 1 {
        if option == 0 {
            "Magic Missle"@
        } else if option == 1 {
            "Shield Warrior"@
        } else {
            "Shield Priest"@
        }
    } else {
        if option == 0 {
            "Heal Warrior"@
        } else if option == 1 {
            "Heal Mage"@
        } else {
            "Heal Self"@
        }
    }
}

/// The label the menu shows for option `option` (0..=3) of the hero at index
/// `hero`.
pub fn menu_label(hero: usize, option: usize) -> (s: &'static str)
    requires
        hero < 3,
        option < 4,
    ensures
        s@ == menu_caption(hero as int, option as int),
{
    if option == 3 {
        "Cycle Hero"
    } else if hero == 0 {
        if option == 0 {
            "Attack"
        } else if option == 1 {
            "Reckless Attack"
        } else {
            "Block"
        }
    } else if hero == 1 {
        if option == 0 {
            "Magic Missle"
        } else if option == 1 {
            "Shield Warrior"
        } else {
            "Shield Priest"
        }
    } else {
        if option == 0 {
            "Heal Warrior"
        } else if option == 1 {
            "Heal Mage"
        } else {
            "Heal Self"
        }
    }
}

/// Move the menu cursor one step down, wrapping from the last option (3)
/// back to the first.
pub fn menu_move_down(selection: usize) -> (r: usize)
    requires
        selection < 4,
    ensures
        r == if selection == 3 { 0int } else { selection + 1 },
{
    if selection == 3 {
        0
    } else {
        selection + 1
    }
}

/// Move the menu cursor one step up, wrapping from the first option back to
/// the last (3).
pub fn menu_move_up(selection: usize) -> (r: usize)
    requires
        selection < 4,
    ensures
        r == if selection == 0 { 3int } else { selection - 1 },
{
    if selection == 0 {
        3
    } else {
        selection - 1
    }
}

} // verus!
