//! The attributes that the behaviours read and write, and the row of
//! attributes that belongs to one entity.

use vstd::prelude::*;
use crate::direction::GameDirection;
use crate::entity::Entity;
use crate::scalar::Scalar;

verus! {

/// What makes an entity a monster: the direction it faces and how fast it
/// walks.
#[derive(Clone, Copy, Debug, PartialEq, Eq)]
pub struct Bug {
    pub facing_direction: GameDirection,
    pub speed: Scalar,
}

/// The ability to jump, with the upward speed a jump starts with.
#[derive(Clone, Copy, Debug, PartialEq, Eq)]
pub struct Jumper {
    pub jump_impulse: Scalar,
}

/// The linear velocity of a physical body.
#[derive(Clone, Copy, Debug, PartialEq, Eq)]
pub struct Velocity {
    pub x: Scalar,
    pub y: Scalar,
}

/// One entity together with the attributes attached to it. An attribute that
/// the entity does not have is `None`.
#[derive(Clone, Copy, Debug, PartialEq, Eq)]
pub struct Row {
    pub entity: Entity,
    pub bug: Option<Bug>,
    pub jumper: Option<Jumper>,
    pub velocity: Option<Velocity>,
}

impl Bug {
    /// The horizontal velocity of a walking monster: its speed to the right,
    /// the negated speed to the left.
    pub open spec fn walking_speed(self) -> Scalar {
        self.speed.signed(self.facing_direction.sign())
    }

    /// The monster after it has turned around `turns` times.
    pub open spec fn turned(self, turns: nat) -> Bug {
        Bug { facing_direction: self.facing_direction.turned(turns), speed: self.speed }
    }

    /// Computes the horizontal velocity of the walking monster.
    pub fn horizontal_velocity(&self) -> (x: Scalar)
        ensures
            x == self.walking_speed(),
    {
        match self.facing_direction {
            GameDirection::Left => self.speed.negated(),
            GameDirection::Right => self.speed,
        }
    }

    /// Turns the monster around. Its speed stays.
    pub fn flip(&mut self)
        ensures
            *final(self) == old(self).turned(1),
            final(self).facing_direction == old(self).facing_direction.opposite(),
            final(self).speed == old(self).speed,
    {
        self.facing_direction = self.facing_direction.flipped();
    }
}

impl Row {
    /// Whether the locomotion behaviour moves this entity: it is a monster
    /// with a velocity.
    pub open spec fn walks(self) -> bool {
        self.bug is Some && self.velocity is Some
    }

    /// Whether the jump behaviour considers this entity: it is a monster, it
    /// can jump and it has a velocity.
    pub open spec fn can_jump(self) -> bool {
        self.bug is Some && self.jumper is Some && self.velocity is Some
    }

    /// The row after one locomotion step: the horizontal velocity follows the
    /// facing direction, everything else stays.
    pub open spec fn walked(self) -> Row {
        if self.walks() {
            Row {
                velocity: Some(
                    Velocity { x: self.bug->0.walking_speed(), y: self.velocity->0.y },
                ),
                ..self
            }
        } else {
            self
        }
    }

    /// The row after `turns` wall contacts: a monster has turned around that
    /// many times, any other entity is unchanged.
    pub open spec fn turned(self, turns: nat) -> Row {
        match self.bug {
            Some(bug) => Row { bug: Some(bug.turned(turns)), ..self },
            None => self,
        }
    }

    /// The row after a jump decision: if the draw was lucky and the entity can
    /// jump, its vertical velocity is its jump impulse; everything else stays.
    pub open spec fn jumped(self, lucky: bool) -> Row {
        if lucky && self.can_jump() {
            Row {
                velocity: Some(
                    Velocity { x: self.velocity->0.x, y: self.jumper->0.jump_impulse },
                ),
                ..self
            }
        } else {
            self
        }
    }

    /// Performs one locomotion step on the row.
    pub fn walk(&mut self)
        ensures
            *final(self) == old(self).walked(),
    {
        match (self.bug, self.velocity) {
            (Some(bug), Some(velocity)) => {
                self.velocity = Some(Velocity { x: bug.horizontal_velocity(), y: velocity.y });
            },
            _ => {},
        }
    }

    /// Turns a monster around; any other entity is left as it is.
    pub fn flip(&mut self)
        ensures
            *final(self) == old(self).turned(1),
    {
        match self.bug {
            Some(bug) => {
                let mut bug = bug;
                bug.flip();
                self.bug = Some(bug);
            },
            None => {},
        }
    }

    /// Applies a jump decision to the row.
    pub fn jump(&mut self, lucky: bool)
        ensures
            *final(self) == old(self).jumped(lucky),
    {
        if lucky && self.bug.is_some() {
            match (self.jumper, self.velocity) {
                (Some(jumper), Some(velocity)) => {
                    self.velocity = Some(Velocity { x: velocity.x, y: jumper.jump_impulse });
                },
                _ => {},
            }
        }
    }
}

} // verus!
