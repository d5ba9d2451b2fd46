use vstd::prelude::*;

use crate::dialog::{player_line, DialogBoxEvent, DialogBoxMessage};

verus! {

/// What pressing the interaction key does to a door.
#[derive(Clone, Copy, Debug, PartialEq, Eq, Structural)]
pub enum DoorInteraction {
    Knock,
    Open,
}

/// The state a door is in.
#[derive(Clone, Copy, Debug, PartialEq, Eq, Structural)]
pub enum DoorStatus {
    Closed,
    Locked,
    MapLimit,
    Open,
}

/// A door of the map.
#[derive(Clone, Copy, Debug, PartialEq, Eq, Structural)]
pub struct Door {
    pub interaction: DoorInteraction,
    pub status: DoorStatus,
}

/// The status a door returns to when it closes.
pub open spec fn resting_status(interaction: DoorInteraction) -> DoorStatus {
    match interaction {
        DoorInteraction::Open => DoorStatus::Closed,
        DoorInteraction::Knock => DoorStatus::Locked,
    }
}

/// The door after it is opened (`is_open`) or closed (not `is_open`).
pub open spec fn opened(door: Door, is_open: bool) -> Door {
    Door {
        interaction: door.interaction,
        status: if is_open { DoorStatus::Open } else { resting_status(door.interaction) },
    }
}

impl Door {
    /// A locked door of an apartment, at which the player can knock.
    pub fn knockable() -> (d: Door)
        ensures
            d == (Door { interaction: DoorInteraction::Knock, status: DoorStatus::Locked }),
    {
        Door { interaction: DoorInteraction::Knock, status: DoorStatus::Locked }
    }

    /// A door that leads out of the map and never opens.
    pub fn map_limit() -> (d: Door)
        ensures
            d == (Door { interaction: DoorInteraction::Open, status: DoorStatus::MapLimit }),
    {
        Door { interaction: DoorInteraction::Open, status: DoorStatus::MapLimit }
    }

    /// A locked door that the player tries to open.
    pub fn locked() -> (d: Door)
        ensures
            d == (Door { interaction: DoorInteraction::Open, status: DoorStatus::Locked }),
    {
        Door { interaction: DoorInteraction::Open, status: DoorStatus::Locked }
    }

    /// A closed door that opens when the player tries.
    pub fn openable() -> (d: Door)
        ensures
            d == (Door { interaction: DoorInteraction::Open, status: DoorStatus::Closed }),
    {
        Door { interaction: DoorInteraction::Open, status: DoorStatus::Closed }
    }

    /// Whether the door is open.
    pub fn is_open(&self) -> (r: bool)
        ensures
            r <==> self.status == DoorStatus::Open,
    {
        match self.status {
            DoorStatus::Open => true,
            _ => false,
        }
    }

    /// Opens the door, or closes it back to the status of its kind.
    pub fn set_is_open(&mut self, is_open: bool)
        ensures
            *final(self) == opened(*old(self), is_open),
    {
        self.status = if is_open {
            DoorStatus::Open
        } else {
            match self.interaction {
                DoorInteraction::Open => DoorStatus::Closed,
                DoorInteraction::Knock => DoorStatus::Locked,
            }
        };
    }
}

/// After `set_is_open(b)` a door is open exactly when `b`, whatever it was before, the way
/// it is interacted with does not change, and doing it again changes nothing.
pub proof fn lemma_set_is_open_decides(door: Door, is_open: bool)
    ensures
        opened(door, is_open).status == DoorStatus::Open <==> is_open,
        opened(door, is_open).interaction == door.interaction,
        opened(opened(door, is_open), is_open) == opened(door, is_open),
{
}

/// Opening then closing a door brings it back to where it was, for every door that starts
/// closed in the status of its kind (a closed openable door, a locked knockable door).
pub proof fn lemma_open_close_round_trip(door: Door)
    requires
        door.status == resting_status(door.interaction),
    ensures
        opened(opened(door, true), false) == door,
{
}

/// The interaction key toggles an openable door: a door that opens on the key closes on it
/// once open, and opens on it again once closed.
pub proof fn lemma_interaction_toggles_door(door: Door)
    ensures
        reaction_of(door) == DoorReactionKind::Open ==> reaction_of(opened(door, true))
            == DoorReactionKind::Close && reaction_of(opened(opened(door, true), false))
            == DoorReactionKind::Open,
        reaction_of(door) == DoorReactionKind::Close ==> reaction_of(opened(door, false))
            == DoorReactionKind::Open && reaction_of(opened(opened(door, false), true))
            == DoorReactionKind::Close,
{
}

/// What happens when the player presses the interaction key in front of a door.
#[derive(Debug)]
pub enum DoorReaction {
    /// The door opens.
    Open,
    /// The door closes.
    Close,
    /// The player says something about the door.
    Say(DialogBoxEvent),
    /// The player knocks; the door reacts once the knock has been heard.
    Knock,
    /// Nothing happens.
    Nothing,
}

/// The kind of reaction a door has to the interaction key, by its interaction and status.
pub open spec fn reaction_of(door: Door) -> DoorReactionKind {
    match (door.interaction, door.status) {
        (DoorInteraction::Open, DoorStatus::Closed) => DoorReactionKind::Open,
        (DoorInteraction::Open, DoorStatus::Open) => DoorReactionKind::Close,
        (DoorInteraction::Open, DoorStatus::Locked) => DoorReactionKind::SayLocked,
        (DoorInteraction::Open, DoorStatus::MapLimit) => DoorReactionKind::SayMapLimit,
        (DoorInteraction::Knock, DoorStatus::Locked) => DoorReactionKind::Knock,
        _ => DoorReactionKind::Nothing,
    }
}

/// The kinds of [`DoorReaction`], the lines said included.
pub enum DoorReactionKind {
    Open,
    Close,
    SayLocked,
    SayMapLimit,
    Knock,
    Nothing,
}

/// Whether a reaction is the one of the given kind.
pub open spec fn reaction_is(r: DoorReaction, kind: DoorReactionKind) -> bool {
    match kind {
        DoorReactionKind::Open => r is Open,
        DoorReactionKind::Close => r is Close,
        DoorReactionKind::SayLocked => r matches DoorReaction::Say(e) && e@ == seq![
            player_line("This door is locked."@),
        ],
        DoorReactionKind::SayMapLimit => r matches DoorReaction::Say(e) && e@ == seq![
            player_line("I have things to do here first."@),
        ],
        DoorReactionKind::Knock => r is Knock,
        DoorReactionKind::Nothing => r is Nothing,
    }
}

/// How a door reacts when the player presses the interaction key in front of it.
pub fn door_reaction(door: &Door) -> (r: DoorReaction)
    ensures
        reaction_is(r, reaction_of(*door)),
{
    match (door.interaction, door.status) {
        (DoorInteraction::Open, DoorStatus::Closed) => DoorReaction::Open,
        (DoorInteraction::Open, DoorStatus::Open) => DoorReaction::Close,
        (DoorInteraction::Open, DoorStatus::Locked) => {
            let e = DialogBoxEvent::with_message(DialogBoxMessage::player("This door is locked."));
            assert(e@ =~= seq![player_line("This door is locked."@)]);
            DoorReaction::Say(e)
        },
        (DoorInteraction::Open, DoorStatus::MapLimit) => {
            let e = DialogBoxEvent::with_message(
                DialogBoxMessage::player("I have things to do here first."),
            );
            assert(e@ =~= seq![player_line("I have things to do here first."@)]);
            DoorReaction::Say(e)
        },
        (DoorInteraction::Knock, DoorStatus::Locked) => DoorReaction::Knock,
        _ => DoorReaction::Nothing,
    }
}

} // verus!
