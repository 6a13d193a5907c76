//! When the behaviours run: every tick and on a fixed cadence, and only while
//! the game is being played.

use vstd::prelude::*;
use crate::components::Row;
use crate::events::{CollisionEvent, MonsterWalkedIntoWallEvent};
use crate::systems::{
    jumped, monster_change_direction_on_contact, monster_jumps, monster_jumps_with,
    monster_wall_contact_detection, monster_walking_system, turned, walked, wall_contacts,
};
use crate::world::World;

verus! {

/// The top-level mode of the game.
#[derive(Debug, Clone, Copy, PartialEq, Eq, Hash, Structural)]
pub enum AppState {
    InGame,
    MainMenu,
    DeathMenu,
    EndMenu,
}

/// The time between two rounds of jump decisions, in milliseconds of
/// simulation time.
pub const JUMP_INTERVAL_MILLIS: u64 = 2000;

/// The schedule of the monster behaviours.
///
/// A host calls [`MonsterAiPlugin::update`] once per simulation tick and
/// [`MonsterAiPlugin::fixed_update`] once per [`JUMP_INTERVAL_MILLIS`].
pub struct MonsterAiPlugin;

/// The rows after one tick in `state`: while the game is being played, the
/// monsters named by the wall contacts of this tick's collisions have turned
/// around and then every monster has walked; in any other state nothing has
/// happened.
pub open spec fn updated(state: AppState, rows: Seq<Row>, collisions: Seq<CollisionEvent>) -> Seq<
    Row,
> {
    if MonsterAiPlugin::active_in(state) {
        walked(turned(rows, wall_contacts(rows, collisions)))
    } else {
        rows
    }
}

/// The rows after one round of jump decisions in `state`: while the game is
/// being played the decisions `draws` have been applied; in any other state
/// nothing has happened.
pub open spec fn fixed_updated(state: AppState, rows: Seq<Row>, draws: Seq<bool>) -> Seq<Row> {
    if MonsterAiPlugin::active_in(state) {
        jumped(rows, draws)
    } else {
        rows
    }
}

impl MonsterAiPlugin {
    /// Whether the behaviours run in `state`: only while the game is being
    /// played.
    pub open spec fn active_in(state: AppState) -> bool {
        state is InGame
    }

    /// The one state in which the behaviours run.
    pub fn active_state() -> (state: AppState)
        ensures
            Self::active_in(state),
            state == AppState::InGame,
    {
        AppState::InGame
    }

    /// Decides whether the behaviours run in `state`.
    pub fn is_active(state: &AppState) -> (active: bool)
        ensures
            active == Self::active_in(*state),
    {
        match state {
            AppState::InGame => true,
            _ => false,
        }
    }

    /// One simulation tick. While the game is being played: detects the wall
    /// contacts among this tick's collisions, turns the monsters they refer
    /// to around, and lets every monster walk. The result holds the
    /// wall-contact notifications that were sent. In any other state nothing
    /// happens.
    pub fn update(
        &self,
        state: &AppState,
        monsters: &mut World,
        collision_events: &Vec<CollisionEvent>,
    ) -> (sent: Vec<MonsterWalkedIntoWallEvent>)
        ensures
            final(monsters)@ == updated(*state, old(monsters)@, collision_events@),
            sent@ == if Self::active_in(*state) {
                wall_contacts(old(monsters)@, collision_events@)
            } else {
                Seq::empty()
            },
    {
        let mut sent: Vec<MonsterWalkedIntoWallEvent> = Vec::new();
        if Self::is_active(state) {
            monster_wall_contact_detection(monsters, collision_events, &mut sent);
            monster_change_direction_on_contact(&sent, monsters);
            monster_walking_system(monsters);
        }
        sent
    }

    /// One round of jump decisions with the given draws, one for each entity
    /// in order. While the game is being played, the entities that can jump
    /// and have a lucky draw jump. In any other state nothing happens.
    pub fn fixed_update_with(&self, state: &AppState, monsters: &mut World, draws: &Vec<bool>)
        ensures
            final(monsters)@ == fixed_updated(*state, old(monsters)@, draws@),
    {
        if Self::is_active(state) {
            monster_jumps_with(monsters, draws);
        }
    }

    /// One round of jump decisions with fresh random draws. Whatever the
    /// draws, an entity either stays as it was or is a monster that can jump
    /// and has jumped; an entity that cannot jump stays as it was, and outside
    /// the game nothing happens at all.
    pub fn fixed_update(&self, state: &AppState, monsters: &mut World)
        ensures
            final(monsters)@.len() == old(monsters)@.len(),
            forall|i: int|
                0 <= i < old(monsters)@.len() ==> (#[trigger] final(monsters)@[i]) == old(
                    monsters,
                )@[i] || (Self::active_in(*state) && final(monsters)@[i] == old(
                    monsters,
                )@[i].jumped(true)),
            forall|i: int|
                0 <= i < old(monsters)@.len() && !old(monsters)@[i].can_jump() ==> (
                #[trigger] final(monsters)@[i]) == old(monsters)@[i],
            !Self::active_in(*state) ==> final(monsters)@ == old(monsters)@,
    {
        if Self::is_active(state) {
            monster_jumps(monsters);
        }
    }
}

} // verus!
