//! The table of entities that the behaviours work on.
//!
//! A [`World`] holds one [`Row`] per entity, in the order in which the
//! entities were added. No entity occurs twice: the table keeps that invariant
//! itself, so every operation is total.

use vstd::prelude::*;
use crate::components::Row;
use crate::entity::Entity;

verus! {

/// Whether no two rows belong to the same entity.
pub open spec fn distinct_entities(rows: Seq<Row>) -> bool {
    forall|i: int, j: int|
        #![trigger rows[i], rows[j]]
        0 <= i < rows.len() && 0 <= j < rows.len() && i != j ==> rows[i].entity != rows[j].entity
}

/// Whether one of the rows belongs to `entity`.
pub open spec fn has_entity(rows: Seq<Row>, entity: Entity) -> bool {
    exists|i: int| 0 <= i < rows.len() && (#[trigger] rows[i]).entity == entity
}

/// The index of the row that belongs to `entity`, where there is one.
pub open spec fn position(rows: Seq<Row>, entity: Entity) -> int {
    choose|i: int| 0 <= i < rows.len() && (#[trigger] rows[i]).entity == entity
}

/// The row that belongs to `entity`, if there is one.
pub open spec fn row_of(rows: Seq<Row>, entity: Entity) -> Option<Row> {
    if has_entity(rows, entity) {
        Some(rows[position(rows, entity)])
    } else {
        None
    }
}

/// Among rows of distinct entities, the row of an entity is found at one
/// index only.
pub proof fn lemma_position_unique(rows: Seq<Row>, index: int)
    requires
        distinct_entities(rows),
        0 <= index < rows.len(),
    ensures
        has_entity(rows, rows[index].entity),
        position(rows, rows[index].entity) == index,
        row_of(rows, rows[index].entity) == Some(rows[index]),
{
    let entity = rows[index].entity;
    assert(has_entity(rows, entity));
    let found = position(rows, entity);
    assert(rows[found].entity == rows[index].entity);
}

/// The entities with their attributes, in the order in which they were added.
///
/// Where an operation changes the rows, it takes them out of the table first
/// and puts them back when they are as they should be: the table itself never
/// holds rows that break its invariant, not even for a moment.
pub struct World {
    rows: Vec<Row>,
}

impl World {
    /// The rows of the table, in order.
    pub closed spec fn view(&self) -> Seq<Row> {
        self.rows@
    }

    /// The invariant of the table: no entity has two rows.
    #[verifier::type_invariant]
    pub closed spec fn wf(&self) -> bool {
        distinct_entities(self.rows@)
    }

    /// A table without entities.
    pub fn new() -> (world: World)
        ensures
            world@ == Seq::<Row>::empty(),
    {
        World { rows: Vec::new() }
    }

    /// A table that meets its invariant holds every entity once. This is what
    /// lets the laws of the behaviours, which speak of rows of distinct
    /// entities, be applied to the rows of a table.
    pub proof fn lemma_entities_distinct(&self)
        requires
            self.wf(),
        ensures
            distinct_entities(self@),
    {
    }

    /// The number of entities.
    pub fn len(&self) -> (len: usize)
        ensures
            len == self@.len(),
    {
        self.rows.len()
    }

    /// Looks up the index of the row that belongs to `entity`.
    pub fn index_of(&self, entity: Entity) -> (found: Option<usize>)
        ensures
            distinct_entities(self@),
            found is Some == has_entity(self@, entity),
            found matches Some(index) ==> index == position(self@, entity) && index < self@.len()
                && self@[index as int].entity == entity,
    {
        proof {
            use_type_invariant(self);
        }
        let mut index: usize = 0;
        while index < self.rows.len()
            invariant
                distinct_entities(self.rows@),
                index <= self.rows@.len(),
                forall|k: int| 0 <= k < index ==> (#[trigger] self.rows@[k]).entity != entity,
            decreases self.rows@.len() - index,
        {
            if self.rows[index].entity == entity {
                proof {
                    lemma_position_unique(self.rows@, index as int);
                }
                return Some(index);
            }
            index += 1;
        }
        None
    }

    /// Whether the table holds `entity`.
    pub fn contains(&self, entity: Entity) -> (held: bool)
        ensures
            held == has_entity(self@, entity),
    {
        self.index_of(entity).is_some()
    }

    /// The row that belongs to `entity`, if the table holds it.
    pub fn get(&self, entity: Entity) -> (found: Option<Row>)
        ensures
            found == row_of(self@, entity),
    {
        match self.index_of(entity) {
            Some(index) => Some(self.rows[index]),
            None => None,
        }
    }

    /// The row at `index`, if there are that many rows.
    pub fn row_at(&self, index: usize) -> (found: Option<Row>)
        ensures
            found == if index < self@.len() {
                Some(self@[index as int])
            } else {
                None
            },
    {
        if index < self.rows.len() {
            Some(self.rows[index])
        } else {
            None
        }
    }

    /// Adds an entity with its attributes at the end of the table, unless the
    /// table holds the entity already: then nothing changes and the result is
    /// `false`.
    pub fn spawn(&mut self, row: Row) -> (spawned: bool)
        ensures
            spawned == !has_entity(old(self)@, row.entity),
            final(self)@ == if spawned {
                old(self)@.push(row)
            } else {
                old(self)@
            },
    {
        proof {
            use_type_invariant(&*self);
        }
        if self.contains(row.entity) {
            false
        } else {
            let mut rows: Vec<Row> = Vec::new();
            core::mem::swap(&mut self.rows, &mut rows);
            rows.push(row);
            core::mem::swap(&mut self.rows, &mut rows);
            true
        }
    }

    /// Removes an entity and hands back its row. The other rows keep their
    /// order. Without the entity in the table nothing changes.
    pub fn despawn(&mut self, entity: Entity) -> (removed: Option<Row>)
        ensures
            removed == row_of(old(self)@, entity),
            final(self)@ == if has_entity(old(self)@, entity) {
                old(self)@.remove(position(old(self)@, entity))
            } else {
                old(self)@
            },
            !has_entity(final(self)@, entity),
    {
        match self.index_of(entity) {
            Some(index) => {
                let mut rows: Vec<Row> = Vec::new();
                core::mem::swap(&mut self.rows, &mut rows);
                let row = rows.remove(index);
                core::mem::swap(&mut self.rows, &mut rows);
                Some(row)
            },
            None => None,
        }
    }

    /// The row at `index`.
    pub(crate) fn row(&self, index: usize) -> (row: Row)
        requires
            index < self@.len(),
        ensures
            row == self@[index as int],
    {
        self.rows[index]
    }

    /// Replaces the attributes of the entity at `index`.
    pub(crate) fn set_row(&mut self, index: usize, row: Row)
        requires
            index < old(self)@.len(),
            row.entity == old(self)@[index as int].entity,
        ensures
            final(self)@ == old(self)@.update(index as int, row),
    {
        proof {
            use_type_invariant(&*self);
        }
        let mut rows: Vec<Row> = Vec::new();
        core::mem::swap(&mut self.rows, &mut rows);
        rows[index] = row;
        core::mem::swap(&mut self.rows, &mut rows);
    }
}

} // verus!
