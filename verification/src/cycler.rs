//! The turn-order cycler: hands the turn to the next hero who is alive and
//! awake, stepping forward circularly from the active index.

use vstd::prelude::*;

use crate::model::{Party, PartyView};

verus! {

/// The index the cycler hands the turn to: the first eligible hero strictly
/// after the active one in circular order 0 -> 1 -> 2 -> 0. If neither of the
/// other two heroes is eligible, it comes back around to the active hero
/// itself.
pub open spec fn next_active(p: PartyView) -> int {
    let s = p.active_hero_index;
    if p.hero((s + 1) % 3).is_eligible() {
        (s + 1) % 3
    } else if p.hero((s + 2) % 3).is_eligible() {
        (s + 2) % 3
    } else {
        s
    }
}

/// Advance the active hero to the next eligible one, skipping heroes who are
/// dead or asleep.
///
/// The loop carries a defensive iteration cap, but the cap is never reached:
/// as long as some hero is eligible, the walk finds one within three steps,
/// and the engine never runs the cycler otherwise.
pub fn cycle_hero(party: &mut Party) -> (idx: usize)
    requires
        old(party)@.wf(),
        old(party)@.some_eligible(),
    ensures
        final(party)@.wf(),
        final(party)@.heroes == old(party)@.heroes,
        final(party)@.is_blocking == old(party)@.is_blocking,
        final(party)@.active_hero_index == next_active(old(party)@),
        idx == final(party)@.active_hero_index,
        final(party)@.active().is_eligible(),
{
    let ghost orig = party@;
    let mut steps: usize = 0;
    let mut found = false;
    while !found && steps < 100
        invariant
            party.heroes@.len() == 3,
            party@.heroes == orig.heroes,
            party@.is_blocking == orig.is_blocking,
            orig.wf(),
            orig.some_eligible(),
            0 <= party@.active_hero_index < 3,
            steps <= 3,
            !found ==> party@.active_hero_index == (orig.active_hero_index + steps) % 3,
            !found ==> forall|k: int|
                1 <= k <= steps ==> !orig.hero(#[trigger] ((orig.active_hero_index + k) % 3)).is_eligible(),
            found ==> 1 <= steps,
            found ==> party@.active_hero_index == next_active(orig),
            found ==> party@.active().is_eligible(),
        decreases 100 - steps,
    {
        proof {
            if steps == 3 {
                let j = choose|j: int| 0 <= j < 3 && orig.heroes[j].is_eligible();
                let s = orig.active_hero_index;
                assert(j == (s + 1) % 3 || j == (s + 2) % 3 || j == (s + 3) % 3);
                assert(false);
            }
        }
        if party.active_hero_index == 2 {
            party.active_hero_index = 0;
        } else {
            party.active_hero_index = party.active_hero_index + 1;
        }
        steps = steps + 1;

        let h = party.heroes[party.active_hero_index];
        if h.current_hp > 0 && !h.is_asleep {
            found = true;
        }
    }
    proof {
        assert(found);
    }
    party.active_hero_index
}

} // verus!
