//! The phase state machine and the timed advance controller: one engine
//! instance owns the whole battle state and is driven by exactly two inbound
//! events, a menu selection and the per-frame elapsed time.

use vstd::prelude::*;

use crate::actions::{action_for, menu_caption, menu_label, select_action, ActionEvent};
use crate::cycler::{cycle_hero, next_active};
use crate::model::{initial_party, Enemy, EnemyView, HeroView, Party, PartyView};
use crate::resolve::{
    apply_enemy, apply_player, enemy_message, player_message, resolve_event, spec_outcome, Outcome,
};

verus! {

/// Which side is resolving an action, or the terminal outcome.
#[derive(Clone, Copy, Debug, PartialEq, Eq, Structural)]
pub enum BattleState {
    Enemy,
    Lose,
    Player,
    Win,
}

/// Whether the player is choosing an action or viewing feedback.
#[derive(Clone, Copy, Debug, PartialEq, Eq, Structural)]
pub enum InfoPanelState {
    Battle,
    Menu,
}

/// The one fatal failure: the cycler would find no hero both alive and
/// awake after an enemy phase's cleanup. The wake-all rule makes this
/// unreachable from ordinary play while a hero lives, but the engine
/// reports it rather than hand the turn to an ineligible hero.
#[derive(Clone, Copy, Debug, PartialEq, Eq, Structural)]
pub enum EngineError {
    NoEligibleHero,
}

/// The fixed feedback delay, in time units.
pub const FEEDBACK_DELAY: u64 = 3;

/// The battle engine: the combatant model, the two phase enumerations, the
/// optional countdown, and the latest feedback message.
#[derive(Debug)]
pub struct Engine {
    pub party: Party,
    pub enemy: Enemy,
    pub battle_state: BattleState,
    pub panel_state: InfoPanelState,
    pub timer: Option<u64>,
    pub message: String,
}

/// The mathematical model of an [`Engine`].
#[verifier::ext_equal]
pub ghost struct EngineView {
    pub party: PartyView,
    pub enemy: EnemyView,
    pub battle_state: BattleState,
    pub panel_state: InfoPanelState,
    pub timer: Option<int>,
    pub message: Seq<char>,
}

impl View for Engine {
    type V = EngineView;

    open spec fn view(&self) -> EngineView {
        EngineView {
            party: self.party@,
            enemy: self.enemy@,
            battle_state: self.battle_state,
            panel_state: self.panel_state,
            timer: match self.timer {
                Some(t) => Some(t as int),
                None => None,
            },
            message: self.message@,
        }
    }
}

impl EngineView {
    /// The stat bounds the engine maintains: the fixed maxima the battle is
    /// created with, and hit points that never stray below the worst the
    /// rules can deal (one reckless self-hit plus one unreduced enemy hit).
    pub open spec fn hp_bounds(self) -> bool {
        &&& forall|i: int|
            0 <= i < 3 ==> -7 <= #[trigger] self.party.heroes[i].current_hp
                <= self.party.heroes[i].max_hp
        &&& self.party.heroes[0].max_hp == 10
        &&& self.party.heroes[1].max_hp == 20
        &&& self.party.heroes[2].max_hp == 10
        &&& self.enemy.max_hp == 10
        &&& -2 <= self.enemy.current_hp <= 10
    }

    /// The player may select an action only while the menu is shown in the
    /// player phase.
    pub open spec fn selectable(self) -> bool {
        self.battle_state is Player && self.panel_state is Menu
    }

    /// The engine's invariant, established by [`Engine::new`] and preserved
    /// by every operation.
    pub open spec fn wf(self) -> bool {
        &&& self.party.wf()
        &&& self.hp_bounds()
        &&& self.selectable() ==> self.party.active().is_eligible() && self.timer is None
        &&& (self.battle_state is Player && self.panel_state is Battle)
            ==> self.party.active().current_hp >= -2
        &&& (self.battle_state is Player || self.battle_state is Enemy)
            ==> self.enemy.current_hp >= 1
        &&& ((self.battle_state is Player || self.battle_state is Enemy)
            && self.panel_state is Battle) ==> self.timer is Some
    }
}

/// The engine at battle start: the initial party, a 10/10 enemy named
/// "Rat", the player phase with the menu up, no countdown and no message.
pub open spec fn initial_engine() -> EngineView {
    EngineView {
        party: initial_party(),
        enemy: EnemyView { current_hp: 10, max_hp: 10, name: "Rat"@ },
        battle_state: BattleState::Player,
        panel_state: InfoPanelState::Menu,
        timer: None,
        message: Seq::<char>::empty(),
    }
}

/// The state after a menu selection: option 3 only reruns the cycler and
/// keeps the menu up; a combat option resolves the active hero's action,
/// shows the feedback panel, starts the countdown, and moves to a terminal
/// phase if the resolution decided the battle.
pub open spec fn spec_select(s: EngineView, option: int) -> EngineView {
    if option == 3 {
        EngineView {
            party: PartyView { active_hero_index: next_active(s.party), ..s.party },
            ..s
        }
    } else {
        let a = action_for(s.party.active_hero_index, option);
        let pe = apply_player(a, s.party, s.enemy);
        let o = spec_outcome(pe.0, pe.1);
        EngineView {
            party: pe.0,
            enemy: pe.1,
            battle_state: if o is Win {
                BattleState::Win
            } else if o is Lose {
                BattleState::Lose
            } else {
                s.battle_state
            },
            panel_state: InfoPanelState::Battle,
            timer: Some(FEEDBACK_DELAY as int),
            message: player_message(a, s.party),
        }
    }
}

/// The end-of-enemy-phase cleanup, one indivisible step: clear the block
/// flag if the Warrior's turn just ended, spend one of the active hero's
/// shield charges, and put the active hero to sleep (waking the whole party
/// instead if that would leave all three asleep).
pub open spec fn cleanup_party(p: PartyView) -> PartyView {
    let a = p.active_hero_index;
    let unblocked = if a == 0 {
        PartyView { is_blocking: false, ..p }
    } else {
        p
    };
    let h = unblocked.hero(a);
    let unshielded = if h.shield_charges > 0 {
        unblocked.with_hero(a, HeroView { shield_charges: h.shield_charges - 1, ..h })
    } else {
        unblocked
    };
    unshielded.fallen_asleep(a)
}

/// The countdown expires with the engine unable to continue: the enemy
/// phase ended, but after cleanup no hero is both alive and awake.
pub open spec fn tick_stuck(s: EngineView, delta: int) -> bool {
    &&& s.timer is Some
    &&& delta >= s.timer->0
    &&& s.battle_state is Enemy
    &&& !cleanup_party(s.party).some_eligible()
}

/// The state after the frame's elapsed time is applied, in every case but
/// the stuck one: an absent countdown waits for the player; a running one
/// counts down; an expiring one fires the pending phase transition.
pub open spec fn spec_tick(s: EngineView, delta: int) -> EngineView {
    match s.timer {
        None => s,
        Some(t) => {
            if delta < t {
                EngineView { timer: Some(t - delta), ..s }
            } else {
                match s.battle_state {
                    BattleState::Player => {
                        let p2 = apply_enemy(s.party);
                        let o = spec_outcome(p2, s.enemy);
                        EngineView {
                            party: p2,
                            battle_state: if o is Win {
                                BattleState::Win
                            } else if o is Lose {
                                BattleState::Lose
                            } else {
                                BattleState::Enemy
                            },
                            timer: Some(FEEDBACK_DELAY as int),
                            message: enemy_message(s.party),
                            ..s
                        }
                    },
                    BattleState::Enemy => {
                        let c = cleanup_party(s.party);
                        EngineView {
                            party: PartyView { active_hero_index: next_active(c), ..c },
                            battle_state: BattleState::Player,
                            panel_state: InfoPanelState::Menu,
                            timer: None,
                            ..s
                        }
                    },
                    BattleState::Win => EngineView { message: "You win!"@, timer: None, ..s },
                    BattleState::Lose => EngineView { message: "You lose!"@, timer: None, ..s },
                }
            }
        },
    }
}

impl Engine {
    /// A fresh battle.
    pub fn new() -> (r: Engine)
        ensures
            r@ == initial_engine(),
            r@.wf(),
    {
        let r = Engine {
            party: Party::default(),
            enemy: Enemy::new("Rat", 10),
            battle_state: BattleState::Player,
            panel_state: InfoPanelState::Menu,
            timer: None,
            message: String::new(),
        };
        proof {
            assert(r@ =~= initial_engine());
        }
        r
    }

    /// Handle a "menu index selected" event. The request is ignored (and
    /// `false` returned) unless the engine is showing the menu in the
    /// player phase.
    pub fn select(&mut self, option: usize) -> (accepted: bool)
        requires
            old(self)@.wf(),
            option < 4,
        ensures
            final(self)@.wf(),
            accepted == old(self)@.selectable(),
            accepted ==> final(self)@ == spec_select(old(self)@, option as int),
            !accepted ==> *final(self) == *old(self),
    {
        if !(self.battle_state == BattleState::Player && self.panel_state == InfoPanelState::Menu) {
            return false;
        }

        if option == 3 {
            // "Cycle Hero": rerun the cycler without ending the turn.
            proof {
                assert(old(self)@.party.active().is_eligible());
            }
            cycle_hero(&mut self.party);
            proof {
                assert(self@ =~= spec_select(old(self)@, option as int));
            }
            return true;
        }

        let action = select_action(self.party.active_hero_index, option);
        let event = ActionEvent::Player(action);
        let (msg, outcome) = resolve_event(&event, &mut self.party, &mut self.enemy);
        self.message = msg;
        match outcome {
            Outcome::Win => {
                self.battle_state = BattleState::Win;
            },
            Outcome::Lose => {
                self.battle_state = BattleState::Lose;
            },
            Outcome::Continue => {},
        }
        self.panel_state = InfoPanelState::Battle;
        self.timer = Some(FEEDBACK_DELAY);
        proof {
            assert(self@ =~= spec_select(old(self)@, option as int));
        }
        true
    }

    /// The label the menu shows for option `option` of the active hero's
    /// class.
    pub fn active_menu_label(&self, option: usize) -> (s: &'static str)
        requires
            self@.wf(),
            option < 4,
        ensures
            s@ == menu_caption(self@.party.active_hero_index, option as int),
    {
        menu_label(self.party.active_hero_index, option)
    }

    /// Advance the countdown by the frame's elapsed time; on expiry, fire
    /// the pending phase transition. The one error is the fatal invariant
    /// violation of [`EngineError::NoEligibleHero`], reported with the
    /// engine left untouched.
    pub fn tick(&mut self, delta: u64) -> (r: Result<(), EngineError>)
        requires
            old(self)@.wf(),
        ensures
            final(self)@.wf(),
            r is Err <==> tick_stuck(old(self)@, delta as int),
            r is Err ==> *final(self) == *old(self),
            r is Ok ==> final(self)@ == spec_tick(old(self)@, delta as int),
    {
        let t = match self.timer {
            Some(t) => t,
            None => {
                return Ok(());
            },
        };

        if delta < t {
            self.timer = Some(t - delta);
            proof {
                assert(self@ =~= spec_tick(old(self)@, delta as int));
            }
            return Ok(());
        }

        match self.battle_state {
            BattleState::Player => {
                // The player's feedback is done: the enemy acts at once.
                self.battle_state = BattleState::Enemy;
                let (msg, outcome) = resolve_event(
                    &ActionEvent::Enemy,
                    &mut self.party,
                    &mut self.enemy,
                );
                self.message = msg;
                match outcome {
                    Outcome::Win => {
                        self.battle_state = BattleState::Win;
                    },
                    Outcome::Lose => {
                        self.battle_state = BattleState::Lose;
                    },
                    Outcome::Continue => {},
                }
                self.timer = Some(FEEDBACK_DELAY);
                proof {
                    assert(self@ =~= spec_tick(old(self)@, delta as int));
                }
                Ok(())
            },
            BattleState::Enemy => {
                // Work out, without touching the model yet, whether anyone
                // will be left to take the turn after cleanup.
                let current = self.party.active_hero_index;
                let s0 = if current == 0 { true } else { self.party.heroes[0].is_asleep };
                let s1 = if current == 1 { true } else { self.party.heroes[1].is_asleep };
                let s2 = if current == 2 { true } else { self.party.heroes[2].is_asleep };
                let all_drowsy = s0 && s1 && s2;
                let w0 = if all_drowsy { false } else { s0 };
                let w1 = if all_drowsy { false } else { s1 };
                let w2 = if all_drowsy { false } else { s2 };
                let any_eligible = (self.party.heroes[0].current_hp > 0 && !w0)
                    || (self.party.heroes[1].current_hp > 0 && !w1)
                    || (self.party.heroes[2].current_hp > 0 && !w2);
                proof {
                    let c = cleanup_party(self.party@);
                    assert(c.heroes.len() == 3);
                    assert(c.heroes[0].current_hp == self.party@.heroes[0].current_hp);
                    assert(c.heroes[1].current_hp == self.party@.heroes[1].current_hp);
                    assert(c.heroes[2].current_hp == self.party@.heroes[2].current_hp);
                    assert(c.heroes[0].is_asleep == w0);
                    assert(c.heroes[1].is_asleep == w1);
                    assert(c.heroes[2].is_asleep == w2);
                    if any_eligible {
                        assert(c.some_eligible());
                    } else {
                        assert forall|i: int| 0 <= i < 3 implies !c.heroes[i].is_eligible() by {
                            assert(!c.heroes[0].is_eligible());
                            assert(!c.heroes[1].is_eligible());
                            assert(!c.heroes[2].is_eligible());
                        }
                        assert(!c.some_eligible());
                    }
                }
                if !any_eligible {
                    return Err(EngineError::NoEligibleHero);
                }

                // End-of-turn cleanup, one indivisible step.
                if current == 0 {
                    self.party.is_blocking = false;
                }
                let mut h = self.party.heroes[current];
                if h.shield_charges > 0 {
                    h.shield_charges = h.shield_charges - 1;
                    self.party.heroes[current] = h;
                }
                proof {
                    let p = old(self)@.party;
                    let a = p.active_hero_index;
                    let unblocked = if a == 0 {
                        PartyView { is_blocking: false, ..p }
                    } else {
                        p
                    };
                    let hh = unblocked.hero(a);
                    let unshielded = if hh.shield_charges > 0 {
                        unblocked.with_hero(a, HeroView { shield_charges: hh.shield_charges - 1, ..hh })
                    } else {
                        unblocked
                    };
                    assert(self.party@ =~= unshielded);
                }
                self.party.set_asleep(current);
                proof {
                    assert(self.party@ =~= cleanup_party(old(self)@.party));
                }

                // Hand the turn on and return to the menu.
                cycle_hero(&mut self.party);
                self.battle_state = BattleState::Player;
                self.panel_state = InfoPanelState::Menu;
                self.timer = None;
                proof {
                    assert(self@ =~= spec_tick(old(self)@, delta as int));
                }
                Ok(())
            },
            BattleState::Win => {
                self.message = "You win!".to_owned();
                self.timer = None;
                proof {
                    assert(self@ =~= spec_tick(old(self)@, delta as int));
                }
                Ok(())
            },
            BattleState::Lose => {
                self.message = "You lose!".to_owned();
                self.timer = None;
                proof {
                    assert(self@ =~= spec_tick(old(self)@, delta as int));
                }
                Ok(())
            },
        }
    }
}

} // verus!
