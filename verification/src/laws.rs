//! What holds of the behaviours on every table, whatever its entities.

use vstd::prelude::*;
use crate::components::Row;
use crate::direction::GameDirection;
use crate::entity::Entity;
use crate::events::{CollisionEvent, MonsterWalkedIntoWallEvent};
use crate::plugin::{fixed_updated, updated, AppState, MonsterAiPlugin};
use crate::systems::{
    contact_count, contacts_among, contacts_of, jumped, lemma_contact_count_push, refers_to,
    turned, walked, wall_contacts,
};
use crate::world::distinct_entities;

verus! {

/// Whether one of the rows is a monster that belongs to `entity`.
pub open spec fn is_monster(rows: Seq<Row>, entity: Entity) -> bool {
    exists|i: int| 0 <= i < rows.len() && (#[trigger] rows[i]).entity == entity && rows[i].bug is Some
}

/// The test whether a collision says that `entity` began to touch something.
pub open spec fn starts_contact_of(entity: Entity) -> spec_fn(CollisionEvent) -> bool {
    |collision: CollisionEvent| collision.starts_contact_of(entity)
}

/// The number of collisions in which `entity` began to touch something.
pub open spec fn started_contacts(collisions: Seq<CollisionEvent>, entity: Entity) -> nat {
    collisions.filter(starts_contact_of(entity)).len()
}

/// Locomotion makes the horizontal velocity of a monster its speed with the
/// sign of its facing direction: the speed itself to the right, the negated
/// speed to the left. The vertical velocity and everything else about the
/// entity stays, and an entity that is no monster or has no velocity stays as
/// a whole.
pub proof fn lemma_walking_follows_direction(rows: Seq<Row>, i: int)
    requires
        0 <= i < rows.len(),
    ensures
        walked(rows).len() == rows.len(),
        walked(rows)[i].entity == rows[i].entity,
        walked(rows)[i].bug == rows[i].bug,
        walked(rows)[i].jumper == rows[i].jumper,
        !rows[i].walks() ==> walked(rows)[i] == rows[i],
        rows[i].walks() ==> {
            let bug = rows[i].bug->0;
            let after = walked(rows)[i].velocity;
            &&& after is Some
            &&& after->0.y == rows[i].velocity->0.y
            &&& after->0.x == bug.speed.signed(bug.facing_direction.sign())
            &&& bug.facing_direction == GameDirection::Right ==> after->0.x == bug.speed
            &&& bug.facing_direction == GameDirection::Left ==> after->0.x == bug.speed.negation()
            &&& after->0.x.magnitude() == bug.speed.magnitude()
            &&& after->0.x.is_negative() == (bug.speed.is_negative() != (bug.facing_direction
                == GameDirection::Left))
        },
{
}

/// Locomotion is a projection of the facing direction: a second step right
/// after the first changes nothing.
pub proof fn lemma_walking_idempotent(rows: Seq<Row>)
    ensures
        walked(walked(rows)) == walked(rows),
{
    assert(walked(walked(rows)) =~= walked(rows));
}

/// The count of a batch that is made of two batches is the sum of their
/// counts.
pub proof fn lemma_contact_count_add(
    first: Seq<MonsterWalkedIntoWallEvent>,
    second: Seq<MonsterWalkedIntoWallEvent>,
    entity: Entity,
)
    ensures
        contact_count(first + second, entity) == contact_count(first, entity) + contact_count(
            second,
            entity,
        ),
{
    Seq::filter_distributes_over_add(first, second, refers_to(entity));
}

/// One collision gives rise to exactly one notification for every monster
/// that began to touch something in it, and to none for anything else.
pub proof fn lemma_one_contact_per_monster(
    rows: Seq<Row>,
    collision: CollisionEvent,
    entity: Entity,
)
    requires
        distinct_entities(rows),
    ensures
        contact_count(contacts_of(rows, collision), entity) == if is_monster(rows, entity)
            && collision.starts_contact_of(entity) {
            1nat
        } else {
            0nat
        },
    decreases rows.len(),
{
    if rows.len() == 0 {
        reveal(Seq::filter);
        assert(contacts_of(rows, collision).len() == 0);
    } else {
        let rest = rows.drop_last();
        let last = rows.last();
        lemma_one_contact_per_monster(rest, collision, entity);
        if is_monster(rest, entity) {
            let k = choose|k: int|
                0 <= k < rest.len() && (#[trigger] rest[k]).entity == entity && rest[k].bug is Some;
            assert(rows[k] == rest[k]);
            assert(is_monster(rows, entity));
            assert(last.entity != entity);
        }
        if is_monster(rows, entity) && !is_monster(rest, entity) {
            let k = choose|k: int|
                0 <= k < rows.len() && (#[trigger] rows[k]).entity == entity && rows[k].bug is Some;
            if k < rest.len() {
                assert(rest[k] == rows[k]);
            }
            assert(last.entity == entity && last.bug is Some);
        }
        if last.entity == entity && last.bug is Some {
            assert(rows[rows.len() - 1] == last);
            assert(is_monster(rows, entity));
        }
        if last.bug is Some && collision.starts_contact_of(last.entity) {
            let event = MonsterWalkedIntoWallEvent { entity: last.entity };
            assert(contacts_of(rows, collision) == contacts_of(rest, collision).push(event));
            lemma_contact_count_push(contacts_of(rest, collision), event, entity);
        } else {
            assert(contacts_of(rows, collision) == contacts_of(rest, collision));
        }
    }
}

/// A collision in which no monster began to touch something gives rise to no
/// notification.
pub proof fn lemma_no_contact_without_monster(rows: Seq<Row>, collision: CollisionEvent)
    requires
        forall|i: int|
            0 <= i < rows.len() && (#[trigger] rows[i]).bug is Some
                ==> !collision.starts_contact_of(rows[i].entity),
    ensures
        contacts_of(rows, collision) == Seq::<MonsterWalkedIntoWallEvent>::empty(),
    decreases rows.len(),
{
    if rows.len() > 0 {
        let rest = rows.drop_last();
        assert forall|i: int| 0 <= i < rest.len() && (#[trigger] rest[i]).bug is Some
            implies !collision.starts_contact_of(rest[i].entity) by {
            assert(rest[i] == rows[i]);
        }
        lemma_no_contact_without_monster(rest, collision);
        assert(rows[rows.len() - 1] == rows.last());
    }
}

/// Over a batch of collisions, a monster is notified once for every collision
/// in which it began to touch something, and nothing else is ever notified.
pub proof fn lemma_contacts_match_collisions(
    rows: Seq<Row>,
    collisions: Seq<CollisionEvent>,
    entity: Entity,
)
    requires
        distinct_entities(rows),
    ensures
        contact_count(wall_contacts(rows, collisions), entity) == if is_monster(rows, entity) {
            started_contacts(collisions, entity)
        } else {
            0nat
        },
    decreases collisions.len(),
{
    reveal(Seq::filter);
    if collisions.len() == 0 {
        assert(wall_contacts(rows, collisions).len() == 0);
    } else {
        let rest = collisions.drop_last();
        let last = collisions.last();
        lemma_contacts_match_collisions(rows, rest, entity);
        lemma_one_contact_per_monster(rows, last, entity);
        assert(collisions == rest.push(last));
        rest.lemma_flat_map_push(contacts_among(rows), last);
        lemma_contact_count_add(wall_contacts(rows, rest), contacts_of(rows, last), entity);
        rest.lemma_filter_len_push(starts_contact_of(entity), last);
    }
}

/// A notification that refers to a monster of the table turns exactly that
/// monster around: it then faces the other way, at the same speed, and every
/// other row is as it was.
pub proof fn lemma_contact_turns_monster(rows: Seq<Row>, i: int)
    requires
        distinct_entities(rows),
        0 <= i < rows.len(),
        rows[i].bug is Some,
    ensures
        ({
            let event = MonsterWalkedIntoWallEvent { entity: rows[i].entity };
            let after = turned(rows, seq![event]);
            &&& after.len() == rows.len()
            &&& after[i].bug is Some
            &&& after[i].bug->0.facing_direction == rows[i].bug->0.facing_direction.opposite()
            &&& after[i].bug->0.facing_direction != rows[i].bug->0.facing_direction
            &&& after[i].bug->0.speed == rows[i].bug->0.speed
            &&& after[i].entity == rows[i].entity
            &&& after[i].jumper == rows[i].jumper
            &&& after[i].velocity == rows[i].velocity
            &&& forall|j: int| 0 <= j < rows.len() && j != i ==> after[j] == rows[j]
        }),
{
    let event = MonsterWalkedIntoWallEvent { entity: rows[i].entity };
    let none = Seq::<MonsterWalkedIntoWallEvent>::empty();
    reveal(Seq::filter);
    assert(seq![event] == none.push(event));
    assert forall|j: int| 0 <= j < rows.len() implies contact_count(
        seq![event],
        (#[trigger] rows[j]).entity,
    ) == if j == i {
        1nat
    } else {
        0nat
    } by {
        lemma_contact_count_push(none, event, rows[j].entity);
        assert(contact_count(none, rows[j].entity) == 0);
    }
}

/// Reacting to one batch of notifications and then to another is reacting to
/// the two batches in a row.
pub proof fn lemma_turning_composes(
    rows: Seq<Row>,
    first: Seq<MonsterWalkedIntoWallEvent>,
    second: Seq<MonsterWalkedIntoWallEvent>,
)
    ensures
        turned(turned(rows, first), second) == turned(rows, first + second),
{
    assert forall|j: int| 0 <= j < rows.len() implies turned(turned(rows, first), second)[j]
        == turned(rows, first + second)[j] by {
        lemma_contact_count_add(first, second, rows[j].entity);
    }
    assert(turned(turned(rows, first), second) =~= turned(rows, first + second));
}

/// Turning around is an involution: reacting twice to the same notifications
/// gives every monster its first direction back.
pub proof fn lemma_turning_twice_restores(rows: Seq<Row>, events: Seq<MonsterWalkedIntoWallEvent>)
    ensures
        turned(turned(rows, events), events) == rows,
{
    lemma_turning_composes(rows, events, events);
    assert forall|j: int| 0 <= j < rows.len() implies turned(rows, events + events)[j]
        == rows[j] by {
        lemma_contact_count_add(events, events, rows[j].entity);
    }
    assert(turned(rows, events + events) =~= rows);
}

/// A notification that refers to no monster of the table, because the monster
/// was removed in the meantime, changes nothing: the batch has the effect it
/// has without that notification.
pub proof fn lemma_stale_contact_is_ignored(
    rows: Seq<Row>,
    before: Seq<MonsterWalkedIntoWallEvent>,
    stale: MonsterWalkedIntoWallEvent,
    after: Seq<MonsterWalkedIntoWallEvent>,
)
    requires
        !is_monster(rows, stale.entity),
    ensures
        turned(rows, seq![stale]) == rows,
        turned(rows, before.push(stale) + after) == turned(rows, before + after),
{
    let none = Seq::<MonsterWalkedIntoWallEvent>::empty();
    assert(seq![stale] == none.push(stale));
    assert forall|j: int| 0 <= j < rows.len() implies turned(rows, seq![stale])[j] == rows[j]
        && turned(rows, before.push(stale) + after)[j] == turned(rows, before + after)[j] by {
        let entity = rows[j].entity;
        reveal(Seq::filter);
        assert(contact_count(none, entity) == 0);
        lemma_contact_count_push(none, stale, entity);
        lemma_contact_count_push(before, stale, entity);
        lemma_contact_count_add(before.push(stale), after, entity);
        lemma_contact_count_add(before, after, entity);
    }
    assert(turned(rows, seq![stale]) =~= rows);
    assert(turned(rows, before.push(stale) + after) =~= turned(rows, before + after));
}

/// A tick never makes anything jump: whatever the state and the collisions,
/// it leaves every vertical velocity as it was. It also never adds, removes
/// or reorders entities, and never touches the ability to jump.
pub proof fn lemma_update_keeps_vertical_velocity(
    state: AppState,
    rows: Seq<Row>,
    collisions: Seq<CollisionEvent>,
    i: int,
)
    requires
        0 <= i < rows.len(),
    ensures
        updated(state, rows, collisions).len() == rows.len(),
        updated(state, rows, collisions)[i].entity == rows[i].entity,
        updated(state, rows, collisions)[i].jumper == rows[i].jumper,
        updated(state, rows, collisions)[i].velocity is Some <==> rows[i].velocity is Some,
        rows[i].velocity is Some ==> updated(state, rows, collisions)[i].velocity->0.y
            == rows[i].velocity->0.y,
        !MonsterAiPlugin::active_in(state) ==> updated(state, rows, collisions) == rows,
{
}

/// A round of jump decisions changes nothing but the vertical velocity of
/// monsters that can jump and have a lucky draw: such a monster gets its jump
/// impulse, any other entity stays as it was. Outside the game nothing
/// changes at all.
pub proof fn lemma_only_lucky_jumpers_jump(
    state: AppState,
    rows: Seq<Row>,
    draws: Seq<bool>,
    i: int,
)
    requires
        0 <= i < rows.len(),
    ensures
        fixed_updated(state, rows, draws).len() == rows.len(),
        !MonsterAiPlugin::active_in(state) ==> fixed_updated(state, rows, draws) == rows,
        !rows[i].can_jump() ==> fixed_updated(state, rows, draws)[i] == rows[i],
        !(i < draws.len() && draws[i]) ==> fixed_updated(state, rows, draws)[i] == rows[i],
        MonsterAiPlugin::active_in(state) && rows[i].can_jump() && i < draws.len() && draws[i] ==> {
            let after = fixed_updated(state, rows, draws)[i];
            &&& after.entity == rows[i].entity
            &&& after.bug == rows[i].bug
            &&& after.jumper == rows[i].jumper
            &&& after.velocity is Some
            &&& after.velocity->0.x == rows[i].velocity->0.x
            &&& after.velocity->0.y == rows[i].jumper->0.jump_impulse
        },
        jumped(rows, draws)[i] == rows[i].jumped(i < draws.len() && draws[i]),
{
}

} // verus!
