use gen_arena::arena::GenerationalArena;
use gen_arena::entity::entity_attack;
use gen_arena::entity::entity_update;
use gen_arena::entity::Entity;

#[test]
fn one_round_of_mutual_damage() {
    let mut entities = GenerationalArena::<Entity>::new();
    let ha = entities.push(Entity { health: 100, damage: 30 });
    let hb = entities.push(Entity { health: 200, damage: 10 });
    assert_eq!((ha.index, ha.generation), (0, 0));
    assert_eq!((hb.index, hb.generation), (1, 0));

    entity_update(0, &mut entities);
    entity_update(1, &mut entities);

    assert_eq!(entities.at(0), Some(&Entity { health: 90, damage: 30 }));
    assert_eq!(entities.at(1), Some(&Entity { health: 170, damage: 10 }));
}

#[test]
fn lethal_damage_vacates_the_target() {
    let mut entities = GenerationalArena::<Entity>::new();
    let _attacker = entities.push(Entity { health: 50, damage: 6 });
    let frail = entities.push(Entity { health: 5, damage: 0 });

    let r = entity_attack(0, frail.index, &mut entities);
    assert_eq!(r, Some(()));
    assert_eq!(entities.at(frail.index), None);
    assert_eq!(entities.len(), 2);
}

#[test]
fn exact_damage_is_survivable() {
    // Health is removed only when it drops below zero, not at zero.
    let mut entities = GenerationalArena::<Entity>::new();
    entities.push(Entity { health: 50, damage: 6 });
    entities.push(Entity { health: 6, damage: 0 });

    entity_attack(0, 1, &mut entities);
    assert_eq!(entities.at(1), Some(&Entity { health: 0, damage: 0 }));

    entity_attack(0, 1, &mut entities);
    assert_eq!(entities.at(1), None);
}

#[test]
fn attack_on_vacant_positions_changes_nothing() {
    let mut entities = GenerationalArena::<Entity>::new();
    entities.push(Entity { health: 10, damage: 3 });

    assert_eq!(entity_attack(0, 5, &mut entities), None);
    assert_eq!(entity_attack(5, 0, &mut entities), None);
    assert_eq!(entities.at(0), Some(&Entity { health: 10, damage: 3 }));
    assert_eq!(entities.len(), 1);
}

#[test]
fn update_skips_the_attacker_itself() {
    let mut entities = GenerationalArena::<Entity>::new();
    entities.push(Entity { health: 10, damage: 7 });

    entity_update(0, &mut entities);
    assert_eq!(entities.at(0), Some(&Entity { health: 10, damage: 7 }));
}

#[test]
fn seven_round_duel() {
    // The full demo schedule: two entities, seven rounds, each round
    // letting every live position attack every other. The stronger
    // attacker fells its target in the seventh round and ends at 40
    // health; the arena keeps both slots allocated.
    let mut entities = GenerationalArena::<Entity>::new();
    entities.push(Entity { health: 100, damage: 30 });
    entities.push(Entity { health: 200, damage: 10 });

    for _ in 0..7 {
        for i in 0..entities.len() {
            entity_update(i, &mut entities);
        }
    }

    assert_eq!(entities.at(0), Some(&Entity { health: 40, damage: 30 }));
    assert_eq!(entities.at(1), None);
    assert_eq!(entities.len(), 2);
}
