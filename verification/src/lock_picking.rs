use vstd::prelude::*;

use crate::door::{opened, Door, DoorInteraction, DoorStatus};
use crate::states::GameState;

verus! {

/// The lock being picked: the door it belongs to, and whether the pick is set so that the
/// lock turns.
#[derive(Clone, Copy, Debug, PartialEq, Eq, Structural)]
pub struct LockPickingData {
    pub entity: Option<u64>,
    pub solved: bool,
}

impl Default for LockPickingData {
    /// No lock is being picked.
    fn default() -> (d: Self)
        ensures
            d == (LockPickingData { entity: None, solved: false }),
    {
        LockPickingData { entity: None, solved: false }
    }
}

/// The door once its lock is picked: closed, and interacted with as before.
pub open spec fn picked(door: Door) -> Door {
    Door { interaction: door.interaction, status: DoorStatus::Closed }
}

/// The lock after the player tries to turn it with the pick in position or not.
pub open spec fn rotated(data: LockPickingData, pick_in_position: bool) -> LockPickingData {
    LockPickingData { entity: data.entity, solved: data.solved || pick_in_position }
}

impl LockPickingData {
    /// The player starts picking the lock of the door `entity`; the game switches to lock
    /// picking.
    pub fn start(entity: u64) -> (r: (Self, GameState))
        ensures
            r.0 == (LockPickingData { entity: Some(entity), solved: false }),
            r.1 == GameState::InLockPicking,
    {
        (LockPickingData { entity: Some(entity), solved: false }, GameState::InLockPicking)
    }

    /// The player tries to turn the lock; it gives way when the pick is in the right position.
    pub fn rotate(&mut self, pick_in_position: bool)
        ensures
            *final(self) == rotated(*old(self), pick_in_position),
    {
        if pick_in_position {
            self.solved = true;
        }
    }

    /// Whether the lock is turning toward its open position.
    pub fn is_turning(&self) -> (r: bool)
        ensures
            r == self.solved,
    {
        self.solved
    }

    /// The lock has turned all the way: the door it belongs to is no longer locked, the game
    /// resumes, and the door is to be opened. Returns the door to open.
    pub fn finish(&mut self, door: &mut Door) -> (r: (u64, GameState))
        requires
            old(self).solved,
            old(self).entity is Some,
        ensures
            r.0 == old(self).entity->0,
            r.1 == GameState::Playing,
            *final(self) == (LockPickingData { entity: None, solved: false }),
            *final(door) == picked(*old(door)),
    {
        let entity = match self.entity {
            Some(e) => e,
            None => 0,
        };
        door.status = DoorStatus::Closed;
        self.entity = None;
        self.solved = false;
        (entity, GameState::Playing)
    }
}

/// A door whose lock was picked is unlocked for good: once opened and closed again it rests
/// closed, not locked, when it is a door the player opens.
pub proof fn lemma_picked_lock_stays_open(door: Door)
    requires
        door.interaction == DoorInteraction::Open,
    ensures
        opened(picked(door), true).status == DoorStatus::Open,
        opened(opened(picked(door), true), false).status == DoorStatus::Closed,
{
}

/// Picking a lock from the start: once the player turns the lock with the pick in position,
/// the lock can be finished, and the door it finishes is the one the picking started on;
/// turning it with the pick out of position leaves the lock as it was.
pub proof fn lemma_lock_picking_lifecycle(entity: u64, pick_in_position: bool)
    ensures
        ({
            let started = LockPickingData { entity: Some(entity), solved: false };
            let turned = rotated(started, pick_in_position);
            &&& turned.solved == pick_in_position
            &&& turned.entity == Some(entity)
            &&& !pick_in_position ==> turned == started
        }),
{
}

} // verus!
