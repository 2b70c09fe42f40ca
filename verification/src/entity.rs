//! A small combat model exercising the arena: entities with a health and
//! a damage value attack one another by position, and an entity whose
//! health drops below zero is vacated from its slot.

use vstd::prelude::*;

use crate::arena::GenerationalArena;
use crate::arena::GenerationalElement;
use crate::arena::vacated;

verus! {

/// A combatant stored in the arena: its remaining health and the damage
/// it deals per attack.
#[derive(Clone, Copy, Debug, PartialEq, Eq, Structural)]
pub struct Entity {
    pub health: i32,
    pub damage: i32,
}

/// Every occupied slot holds an entity with non-negative health and
/// damage. Attacks preserve this, and it is what keeps the subtraction
/// `health - damage` within machine bounds.
pub open spec fn entities_wf(s: Seq<GenerationalElement<Entity>>) -> bool {
    forall|i: int|
        0 <= i < s.len() && (#[trigger] s[i]).spec_is_some() ==> 0 <= s[i].spec_value().health && 0
            <= s[i].spec_value().damage
}

/// The slot sequence after the entity at `self_i` attacks the one at
/// `other_i`: if both positions are occupied, the attacker's damage is
/// subtracted from the target's health, and the target's slot is vacated
/// when the result drops below zero. If either position is out of range
/// or vacant, nothing changes.
pub open spec fn attack(
    s: Seq<GenerationalElement<Entity>>,
    self_i: int,
    other_i: int,
) -> Seq<GenerationalElement<Entity>> {
    if 0 <= self_i < s.len() && s[self_i].spec_is_some() && 0 <= other_i < s.len()
        && s[other_i].spec_is_some() {
        let new_health = s[other_i].spec_value().health - s[self_i].spec_value().damage;
        if new_health < 0 {
            vacated(s, other_i)
        } else {
            s.update(
                other_i,
                GenerationalElement::Occupied {
                    value: Entity {
                        health: new_health as i32,
                        damage: s[other_i].spec_value().damage,
                    },
                    generation: s[other_i].spec_generation(),
                },
            )
        }
    } else {
        s
    }
}

/// The slot sequence after the entity at `self_i` has attacked every
/// position below `n` except its own, in increasing order of position.
pub open spec fn run_attacks(
    s: Seq<GenerationalElement<Entity>>,
    self_i: int,
    n: int,
) -> Seq<GenerationalElement<Entity>>
    decreases n,
{
    if n <= 0 {
        s
    } else {
        let prev = run_attacks(s, self_i, n - 1);
        if n - 1 == self_i {
            prev
        } else {
            attack(prev, self_i, n - 1)
        }
    }
}

/// An attack never allocates or removes slots: positions stay stable.
pub proof fn lemma_attack_preserves_len(s: Seq<GenerationalElement<Entity>>, self_i: int, other_i: int)
    ensures
        attack(s, self_i, other_i).len() == s.len(),
{
}

/// An attack leaves every position other than the target untouched.
pub proof fn lemma_attack_other_positions(
    s: Seq<GenerationalElement<Entity>>,
    self_i: int,
    other_i: int,
    j: int,
)
    requires
        0 <= j < s.len(),
        j != other_i,
    ensures
        attack(s, self_i, other_i)[j] == s[j],
{
}

/// Attacks preserve the non-negativity of every stored health and damage
/// value: a target whose health would go negative is vacated instead.
pub proof fn lemma_attack_preserves_wf(
    s: Seq<GenerationalElement<Entity>>,
    self_i: int,
    other_i: int,
)
    requires
        entities_wf(s),
    ensures
        entities_wf(attack(s, self_i, other_i)),
{
    let t = attack(s, self_i, other_i);
    assert forall|i: int|
        0 <= i < t.len() && (#[trigger] t[i]).spec_is_some() implies 0 <= t[i].spec_value().health
        && 0 <= t[i].spec_value().damage by {
        if i != other_i {
            assert(t[i] == s[i]);
        } else {
            assert(s[i].spec_is_some() || t[i] == s[i]);
        }
    }
}

/// The entity at `self_index` attacks the entity at `other_index`:
/// the attacker's damage is subtracted from the target's health, and the
/// target is vacated (by raw position, keeping its generation) when its
/// health drops below zero. Returns `None`, changing nothing, if either
/// position is out of range or vacant.
pub fn entity_attack(
    self_index: usize,
    other_index: usize,
    entities: &mut GenerationalArena<Entity>,
) -> (r: Option<()>)
    requires
        entities_wf(old(entities).slots()),
    ensures
        final(entities).slots() =~= attack(
            old(entities).slots(),
            self_index as int,
            other_index as int,
        ),
        final(entities).cursor() == old(entities).cursor(),
        final(entities).slots().len() == old(entities).slots().len(),
        entities_wf(final(entities).slots()),
        r.is_some() == (old(entities).occupied(self_index as int) && old(entities).occupied(
            other_index as int,
        )),
{
    proof {
        lemma_attack_preserves_len(old(entities).slots(), self_index as int, other_index as int);
        lemma_attack_preserves_wf(old(entities).slots(), self_index as int, other_index as int);
    }
    let damage = match entities.at(self_index) {
        Some(e) => e.damage,
        None => {
            return None;
        },
    };
    let health = match entities.at(other_index) {
        Some(e) => e.health,
        None => {
            return None;
        },
    };
    let new_health = health - damage;
    if new_health < 0 {
        entities.remove_at(other_index);
    } else {
        match entities.at_mut(other_index) {
            Some(e) => {
                e.health = new_health;
            },
            None => {},
        }
    }
    Some(())
}

/// The entity at `self_index` attacks every other position in the arena
/// once, in increasing order of position; positions that are vacant when
/// their turn comes (including targets vacated earlier in the same sweep)
/// are skipped by the attack itself.
pub fn entity_update(self_index: usize, entities: &mut GenerationalArena<Entity>)
    requires
        entities_wf(old(entities).slots()),
    ensures
        final(entities).slots() =~= run_attacks(
            old(entities).slots(),
            self_index as int,
            old(entities).slots().len() as int,
        ),
        final(entities).cursor() == old(entities).cursor(),
        final(entities).slots().len() == old(entities).slots().len(),
        entities_wf(final(entities).slots()),
{
    let len = entities.len();
    let mut i: usize = 0;
    while i < len
        invariant
            0 <= i <= len,
            len == old(entities).slots().len(),
            entities.slots().len() == len,
            entities.cursor() == old(entities).cursor(),
            entities_wf(entities.slots()),
            entities.slots() == run_attacks(old(entities).slots(), self_index as int, i as int),
        decreases len - i,
    {
        if i != self_index {
            entity_attack(self_index, i, entities);
        }
        i = i + 1;
    }
}

} // verus!
