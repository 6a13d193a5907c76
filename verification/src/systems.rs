//! The four behaviours of a monster: walking, noticing a wall, turning around
//! and jumping.

use vstd::prelude::*;
use crate::components::Row;
use crate::entity::Entity;
use crate::events::{CollisionEvent, MonsterWalkedIntoWallEvent};
use crate::random::should_jump;
use crate::world::World;

verus! {

/// The rows after one locomotion step of every entity.
pub open spec fn walked(rows: Seq<Row>) -> Seq<Row> {
    rows.map_values(|row: Row| row.walked())
}

/// The notification that a row gives rise to when `collision` arrives: one
/// for a monster that began to touch something, none otherwise.
pub open spec fn contact_of(collision: CollisionEvent) -> spec_fn(Row) -> Option<
    MonsterWalkedIntoWallEvent,
> {
    |row: Row|
        if row.bug is Some && collision.starts_contact_of(row.entity) {
            Some(MonsterWalkedIntoWallEvent { entity: row.entity })
        } else {
            None
        }
}

/// The notifications that one collision gives rise to, in the order of the
/// rows.
pub open spec fn contacts_of(rows: Seq<Row>, collision: CollisionEvent) -> Seq<
    MonsterWalkedIntoWallEvent,
> {
    rows.filter_map(contact_of(collision))
}

/// The function that maps a collision to the notifications it gives rise to.
pub open spec fn contacts_among(rows: Seq<Row>) -> spec_fn(CollisionEvent) -> Seq<
    MonsterWalkedIntoWallEvent,
> {
    |collision: CollisionEvent| contacts_of(rows, collision)
}

/// The notifications that a batch of collisions gives rise to: those of the
/// first collision, then those of the second, and so on.
pub open spec fn wall_contacts(rows: Seq<Row>, collisions: Seq<CollisionEvent>) -> Seq<
    MonsterWalkedIntoWallEvent,
> {
    collisions.flat_map(contacts_among(rows))
}

/// The test whether a notification refers to `entity`.
pub open spec fn refers_to(entity: Entity) -> spec_fn(MonsterWalkedIntoWallEvent) -> bool {
    |event: MonsterWalkedIntoWallEvent| event.entity == entity
}

/// The number of notifications that refer to `entity`.
pub open spec fn contact_count(events: Seq<MonsterWalkedIntoWallEvent>, entity: Entity) -> nat {
    events.filter(refers_to(entity)).len()
}

/// The rows after a batch of notifications: every monster has turned around
/// once for each notification that refers to it.
pub open spec fn turned(rows: Seq<Row>, events: Seq<MonsterWalkedIntoWallEvent>) -> Seq<Row> {
    rows.map_values(|row: Row| row.turned(contact_count(events, row.entity)))
}

/// The rows after the jump decisions `draws`, one for each row: an entity
/// jumps if its draw is lucky and it can jump. A row without a draw stays.
pub open spec fn jumped(rows: Seq<Row>, draws: Seq<bool>) -> Seq<Row> {
    Seq::new(rows.len(), |i: int| rows[i].jumped(i < draws.len() && draws[i]))
}

/// Locomotion: gives every monster the horizontal velocity of its facing
/// direction and speed. Vertical velocities, and entities that are no monsters
/// or have no velocity, are left alone.
pub fn monster_walking_system(monsters: &mut World)
    ensures
        final(monsters)@ == walked(old(monsters)@),
{
    let count: usize = monsters.len();
    let mut index: usize = 0;
    while index < count
        invariant
            index <= count,
            count == monsters@.len(),
            monsters@.len() == old(monsters)@.len(),
            forall|k: int| 0 <= k < index ==> monsters@[k] == old(monsters)@[k].walked(),
            forall|k: int| index <= k < count ==> monsters@[k] == old(monsters)@[k],
        decreases count - index,
    {
        let mut row = monsters.row(index);
        row.walk();
        monsters.set_row(index, row);
        index += 1;
    }
}

/// Wall-contact detection: for every collision that started, in order, sends
/// one notification for each monster that takes part in it.
pub fn monster_wall_contact_detection(
    monsters: &World,
    collision_events: &Vec<CollisionEvent>,
    send_monster_walked_into_wall: &mut Vec<MonsterWalkedIntoWallEvent>,
)
    ensures
        final(send_monster_walked_into_wall)@ == old(send_monster_walked_into_wall)@
            + wall_contacts(monsters@, collision_events@),
{
    let count: usize = monsters.len();
    let mut seen: usize = 0;
    while seen < collision_events.len()
        invariant
            seen <= collision_events@.len(),
            count == monsters@.len(),
            send_monster_walked_into_wall@ == old(send_monster_walked_into_wall)@ + wall_contacts(
                monsters@,
                collision_events@.take(seen as int),
            ),
        decreases collision_events@.len() - seen,
    {
        let collision = collision_events[seen];
        let ghost sent = send_monster_walked_into_wall@;
        let mut index: usize = 0;
        while index < count
            invariant
                index <= count,
                count == monsters@.len(),
                send_monster_walked_into_wall@ == sent + contacts_of(
                    monsters@.take(index as int),
                    collision,
                ),
            decreases count - index,
        {
            let row = monsters.row(index);
            proof {
                monsters@.lemma_filter_map_take_succ(contact_of(collision), index as int);
            }
            if row.bug.is_some() && collision.involves(row.entity) {
                send_monster_walked_into_wall.push(MonsterWalkedIntoWallEvent { entity: row.entity });
            }
            index += 1;
        }
        proof {
            assert(monsters@.take(count as int) == monsters@);
            collision_events@.lemma_flat_map_take_append(contacts_among(monsters@), seen as int);
        }
        seen += 1;
    }
    proof {
        assert(collision_events@.take(seen as int) == collision_events@);
    }
}

/// One more notification adds one to the count of the entity it refers to
/// and leaves every other count as it is.
pub proof fn lemma_contact_count_push(
    events: Seq<MonsterWalkedIntoWallEvent>,
    event: MonsterWalkedIntoWallEvent,
    entity: Entity,
)
    ensures
        contact_count(events.push(event), entity) == contact_count(events, entity) + if event.entity
            == entity {
            1nat
        } else {
            0nat
        },
{
    events.lemma_filter_len_push(refers_to(entity), event);
}

/// Direction-flip reaction: for every notification, in order, turns the
/// monster it refers to around. A notification that refers to an entity which
/// is gone, or is no monster, is passed over.
pub fn monster_change_direction_on_contact(
    events: &Vec<MonsterWalkedIntoWallEvent>,
    monsters: &mut World,
)
    ensures
        final(monsters)@ == turned(old(monsters)@, events@),
{
    let mut seen: usize = 0;
    while seen < events.len()
        invariant
            seen <= events@.len(),
            monsters@ == turned(old(monsters)@, events@.take(seen as int)),
        decreases events@.len() - seen,
    {
        let event = events[seen];
        let ghost before = monsters@;
        let ghost handled = events@.take(seen as int);
        proof {
            assert(events@.take(seen + 1) == handled.push(event));
            assert forall|k: int| 0 <= k < before.len() implies contact_count(
                handled.push(event),
                (#[trigger] before[k]).entity,
            ) == contact_count(handled, before[k].entity) + if before[k].entity == event.entity {
                1nat
            } else {
                0nat
            } by {
                lemma_contact_count_push(handled, event, before[k].entity);
            }
        }
        match monsters.index_of(event.entity) {
            Some(index) => {
                let mut row = monsters.row(index);
                row.flip();
                monsters.set_row(index, row);
            },
            None => {},
        }
        seen += 1;
    }
    proof {
        assert(events@.take(seen as int) == events@);
    }
}

/// Draws the jump decisions of one round: a fresh random draw for every
/// entity that can jump, in order, and `false` for every other entity.
pub fn draw_jumps(monsters: &World) -> (draws: Vec<bool>)
    ensures
        draws@.len() == monsters@.len(),
        forall|i: int| 0 <= i < draws@.len() && draws@[i] ==> monsters@[i].can_jump(),
{
    let count: usize = monsters.len();
    let mut draws: Vec<bool> = Vec::new();
    let mut index: usize = 0;
    while index < count
        invariant
            index <= count,
            count == monsters@.len(),
            draws@.len() == index,
            forall|i: int| 0 <= i < index && draws@[i] ==> monsters@[i].can_jump(),
        decreases count - index,
    {
        let row = monsters.row(index);
        let lucky = row.bug.is_some() && row.jumper.is_some() && row.velocity.is_some()
            && should_jump();
        draws.push(lucky);
        index += 1;
    }
    draws
}

/// Applies the jump decisions `draws`, one for each entity in order: an
/// entity that can jump and whose draw is lucky gets its jump impulse as
/// vertical velocity. Horizontal velocities are left alone, and so is every
/// entity without a lucky draw.
pub fn monster_jumps_with(monsters: &mut World, draws: &Vec<bool>)
    ensures
        final(monsters)@ == jumped(old(monsters)@, draws@),
{
    let count: usize = monsters.len();
    let mut index: usize = 0;
    while index < count
        invariant
            index <= count,
            count == monsters@.len(),
            monsters@.len() == old(monsters)@.len(),
            forall|k: int|
                0 <= k < index ==> (#[trigger] monsters@[k]) == old(monsters)@[k].jumped(
                    k < draws@.len() && draws@[k],
                ),
            forall|k: int|
                index <= k < count ==> (#[trigger] monsters@[k]) == old(monsters)@[k],
        decreases count - index,
    {
        let lucky = index < draws.len() && draws[index];
        let mut row = monsters.row(index);
        row.jump(lucky);
        monsters.set_row(index, row);
        index += 1;
    }
}

/// Periodic jump: draws once for every monster that can jump and lets the
/// lucky ones jump. Whatever the draws, an entity either stays as it was or
/// is a monster that can jump and has jumped; an entity that cannot jump
/// always stays as it was.
pub fn monster_jumps(monsters: &mut World)
    ensures
        final(monsters)@.len() == old(monsters)@.len(),
        forall|i: int|
            0 <= i < old(monsters)@.len() ==> (#[trigger] final(monsters)@[i]) == old(monsters)@[i]
                || final(monsters)@[i] == old(monsters)@[i].jumped(true),
        forall|i: int|
            0 <= i < old(monsters)@.len() && !old(monsters)@[i].can_jump() ==> (
            #[trigger] final(monsters)@[i]) == old(monsters)@[i],
{
    let draws = draw_jumps(monsters);
    monster_jumps_with(monsters, &draws);
}

} // verus!
