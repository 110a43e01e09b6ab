//! The combatant model: the three heroes' vital stats and transient combat
//! modifiers, and the single enemy. The model holds no behaviour of its own;
//! it is mutated by the resolution engine and the end-of-phase cleanup.

use vstd::prelude::*;

verus! {

/// One hero's vital stats and transient modifiers. Heroes are stored in a
/// fixed order: Warrior at index 0, Mage at 1, Priest at 2. A hero is dead
/// when `current_hp <= 0`; hit points may go negative.
#[derive(Clone, Copy, Debug, PartialEq, Eq, Structural)]
pub struct Hero {
    pub current_hp: isize,
    pub max_hp: isize,
    pub is_asleep: bool,
    /// Remaining enemy turns for which incoming damage is reduced.
    pub shield_charges: usize,
}

/// The mathematical model of a [`Hero`]: the same fields over unbounded
/// integers.
pub ghost struct HeroView {
    pub current_hp: int,
    pub max_hp: int,
    pub is_asleep: bool,
    pub shield_charges: int,
}

impl HeroView {
    /// A hero is alive while its hit points are positive.
    pub open spec fn is_alive(self) -> bool {
        self.current_hp > 0
    }

    /// A hero may act (and be selected by the cycler) when alive and awake.
    pub open spec fn is_eligible(self) -> bool {
        self.is_alive() && !self.is_asleep
    }
}

impl View for Hero {
    type V = HeroView;

    open spec fn view(&self) -> HeroView {
        HeroView {
            current_hp: self.current_hp as int,
            max_hp: self.max_hp as int,
            is_asleep: self.is_asleep,
            shield_charges: self.shield_charges as int,
        }
    }
}

impl DeepView for Hero {
    type V = HeroView;

    open spec fn deep_view(&self) -> HeroView {
        self.view()
    }
}

/// The party: the three heroes, whose turn is currently selectable, and the
/// Warrior's block flag (meaningful only for the Warrior, hero 0).
#[derive(Debug)]
pub struct Party {
    pub heroes: Vec<Hero>,
    pub active_hero_index: usize,
    pub is_blocking: bool,
}

/// The mathematical model of a [`Party`].
#[verifier::ext_equal]
pub ghost struct PartyView {
    pub heroes: Seq<HeroView>,
    pub active_hero_index: int,
    pub is_blocking: bool,
}

impl View for Party {
    type V = PartyView;

    open spec fn view(&self) -> PartyView {
        PartyView {
            heroes: self.heroes.deep_view(),
            active_hero_index: self.active_hero_index as int,
            is_blocking: self.is_blocking,
        }
    }
}

impl PartyView {
    /// Well-formedness: exactly three heroes, and the active index in range.
    pub open spec fn wf(self) -> bool {
        &&& self.heroes.len() == 3
        &&& 0 <= self.active_hero_index < 3
    }

    pub open spec fn hero(self, i: int) -> HeroView {
        self.heroes[i]
    }

    /// The hero whose turn is currently selectable.
    pub open spec fn active(self) -> HeroView {
        self.heroes[self.active_hero_index]
    }

    pub open spec fn all_asleep(self) -> bool {
        forall|i: int| 0 <= i < self.heroes.len() ==> self.heroes[i].is_asleep
    }

    pub open spec fn all_dead(self) -> bool {
        forall|i: int| 0 <= i < self.heroes.len() ==> self.heroes[i].current_hp <= 0
    }

    /// Some hero could legitimately be handed the next turn.
    pub open spec fn some_eligible(self) -> bool {
        exists|i: int| 0 <= i < self.heroes.len() && self.heroes[i].is_eligible()
    }

    /// The party with hero `i` replaced.
    pub open spec fn with_hero(self, i: int, h: HeroView) -> PartyView {
        PartyView { heroes: self.heroes.update(i, h), ..self }
    }

    /// The party with every hero awake.
    pub open spec fn awaken_all(self) -> PartyView {
        PartyView {
            heroes: Seq::new(
                self.heroes.len(),
                |i: int| HeroView { is_asleep: false, ..self.heroes[i] },
            ),
            ..self
        }
    }

    /// Hero `i` falls asleep; if that would leave the whole party asleep,
    /// all three heroes are woken instead, in the same step.
    pub open spec fn fallen_asleep(self, i: int) -> PartyView {
        let drowsy = self.with_hero(i, HeroView { is_asleep: true, ..self.hero(i) });
        if drowsy.all_asleep() {
            drowsy.awaken_all()
        } else {
            drowsy
        }
    }
}

/// The status caption shown beside a hero: death outranks sleep, and a
/// hero who is neither dead nor asleep shows nothing.
pub open spec fn status_caption(h: HeroView) -> Seq<char> {
    if h.current_hp <= 0 {
        "DEAD"@
    } else if h.is_asleep {
        "SLEEP"@
    } else {
        ""@
    }
}

/// The initial party: Warrior 10/10, Mage 20/20, Priest 10/10, everyone
/// awake, unshielded and not blocking, with the Warrior's turn first.
pub open spec fn initial_party() -> PartyView {
    PartyView {
        heroes: seq![
            HeroView { current_hp: 10, max_hp: 10, is_asleep: false, shield_charges: 0 },
            HeroView { current_hp: 20, max_hp: 20, is_asleep: false, shield_charges: 0 },
            HeroView { current_hp: 10, max_hp: 10, is_asleep: false, shield_charges: 0 },
        ],
        active_hero_index: 0,
        is_blocking: false,
    }
}

impl Default for Party {
    /// The party at battle start.
    fn default() -> (r: Party)
        ensures
            r@ == initial_party(),
    {
        let mut heroes: Vec<Hero> = Vec::new();
        heroes.push(Hero { current_hp: 10, max_hp: 10, is_asleep: false, shield_charges: 0 });
        heroes.push(Hero { current_hp: 20, max_hp: 20, is_asleep: false, shield_charges: 0 });
        heroes.push(Hero { current_hp: 10, max_hp: 10, is_asleep: false, shield_charges: 0 });
        let r = Party { heroes, active_hero_index: 0, is_blocking: false };
        proof {
            assert(r@ =~= initial_party());
        }
        r
    }
}

impl Party {
    /// Whether hero `i` is dead (derived: non-positive hit points).
    pub fn hero_is_dead(&self, i: usize) -> (r: bool)
        requires
            self@.wf(),
            i < 3,
        ensures
            r == (self@.hero(i as int).current_hp <= 0),
    {
        self.heroes[i].current_hp <= 0
    }

    /// Whether hero `i` is asleep.
    pub fn hero_is_asleep(&self, i: usize) -> (r: bool)
        requires
            self@.wf(),
            i < 3,
        ensures
            r == self@.hero(i as int).is_asleep,
    {
        self.heroes[i].is_asleep
    }

    /// The status caption shown beside hero `i`.
    pub fn hero_status_label(&self, i: usize) -> (s: &'static str)
        requires
            self@.wf(),
            i < 3,
        ensures
            s@ == status_caption(self@.hero(i as int)),
    {
        if self.heroes[i].current_hp <= 0 {
            "DEAD"
        } else if self.heroes[i].is_asleep {
            "SLEEP"
        } else {
            ""
        }
    }

    /// Put hero `hero` to sleep, waking the whole party instead if that
    /// would leave all three heroes asleep.
    pub fn set_asleep(&mut self, hero: usize)
        requires
            old(self)@.wf(),
            hero < 3,
        ensures
            final(self)@ == old(self)@.fallen_asleep(hero as int),
    {
        let ghost orig = self@;
        let mut h = self.heroes[hero];
        h.is_asleep = true;
        self.heroes[hero] = h;
        proof {
            assert(self@ =~= orig.with_hero(
                hero as int,
                HeroView { is_asleep: true, ..orig.hero(hero as int) },
            ));
        }
        let ghost drowsy = self@;

        if self.heroes[0].is_asleep && self.heroes[1].is_asleep && self.heroes[2].is_asleep {
            proof {
                assert forall|j: int| 0 <= j < drowsy.heroes.len() implies drowsy.heroes[j].is_asleep by {
                    assert(drowsy.heroes[0].is_asleep);
                    assert(drowsy.heroes[1].is_asleep);
                    assert(drowsy.heroes[2].is_asleep);
                }
            }
            let mut h0 = self.heroes[0];
            h0.is_asleep = false;
            self.heroes[0] = h0;
            let mut h1 = self.heroes[1];
            h1.is_asleep = false;
            self.heroes[1] = h1;
            let mut h2 = self.heroes[2];
            h2.is_asleep = false;
            self.heroes[2] = h2;
            proof {
                assert(self@ =~= drowsy.awaken_all());
            }
        } else {
            proof {
                if !drowsy.heroes[0].is_asleep {
                    assert(!drowsy.all_asleep());
                } else if !drowsy.heroes[1].is_asleep {
                    assert(!drowsy.all_asleep());
                } else {
                    assert(!drowsy.heroes[2].is_asleep);
                    assert(!drowsy.all_asleep());
                }
                assert(self@ =~= drowsy);
            }
        }
    }
}

/// The single enemy's vital stats and display name.
#[derive(Debug)]
pub struct Enemy {
    pub current_hp: isize,
    pub max_hp: isize,
    pub name: String,
}

/// The mathematical model of an [`Enemy`].
#[verifier::ext_equal]
pub ghost struct EnemyView {
    pub current_hp: int,
    pub max_hp: int,
    pub name: Seq<char>,
}

impl View for Enemy {
    type V = EnemyView;

    open spec fn view(&self) -> EnemyView {
        EnemyView {
            current_hp: self.current_hp as int,
            max_hp: self.max_hp as int,
            name: self.name@,
        }
    }
}

impl Enemy {
    /// A fresh enemy at full health.
    pub fn new(name: &str, hp: isize) -> (r: Enemy)
        ensures
            r@.current_hp == hp,
            r@.max_hp == hp,
            r@.name == name@,
    {
        Enemy { current_hp: hp, max_hp: hp, name: name.to_owned() }
    }
}

} // verus!
