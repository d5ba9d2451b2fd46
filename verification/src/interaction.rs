use vstd::prelude::*;

use crate::door::{door_reaction, reaction_is, reaction_of, Door, DoorInteraction, DoorReaction, DoorStatus};

verus! {

/// Whether an entity is among those a camera sees, given as the lists of entities the camera
/// sees by kind of object.
pub open spec fn spec_is_visible(visible: Seq<Seq<u64>>, target: u64) -> bool {
    exists|i: int| 0 <= i < visible.len() && #[trigger] visible[i].contains(target)
}

/// Whether the camera sees `target` in any of its lists of visible entities.
pub fn is_visible(visible: &Vec<Vec<u64>>, target: u64) -> (r: bool)
    ensures
        r <==> spec_is_visible(visible@.map_values(|v: Vec<u64>| v@), target),
{
    let ghost lists = visible@.map_values(|v: Vec<u64>| v@);
    let mut i: usize = 0;
    while i < visible.len()
        invariant
            i <= visible.len(),
            lists == visible@.map_values(|v: Vec<u64>| v@),
            forall|k: int| 0 <= k < i ==> !(#[trigger] lists[k]).contains(target),
        decreases visible.len() - i,
    {
        let list = &visible[i];
        let mut j: usize = 0;
        while j < list.len()
            invariant
                j <= list.len(),
                i < visible.len(),
                lists == visible@.map_values(|v: Vec<u64>| v@),
                list@ == lists[i as int],
                forall|k: int| 0 <= k < j ==> list@[k] != target,
            decreases list.len() - j,
        {
            if list[j] == target {
                assert(lists[i as int][j as int] == target);
                assert(lists[i as int].contains(target));
                return true;
            }
            j += 1;
        }
        assert(!lists[i as int].contains(target));
        i += 1;
    }
    false
}

/// What the interaction key does, given what is within reach of the player.
#[derive(Debug)]
pub enum InteractionOutcome {
    /// The player talks to the character behind this talk spot.
    Talk(u64),
    /// The player acts on this door; the door stays out of reach for a moment afterwards.
    Door(u64, DoorReaction),
    /// Nothing is within reach.
    Nothing,
}

/// Reacts to the interaction key: a talk spot within reach comes first, then the nearest door.
pub fn on_interaction_key(nearest_talk: Option<u64>, nearest_door: Option<(u64, Door)>) -> (r:
    InteractionOutcome)
    ensures
        nearest_talk matches Some(t) ==> r == InteractionOutcome::Talk(t),
        nearest_talk is None && nearest_door is None ==> r is Nothing,
        nearest_talk is None ==> (nearest_door matches Some((e, d)) ==> (r matches InteractionOutcome::Door(
            e2,
            reaction,
        ) && e2 == e && reaction_is(reaction, reaction_of(d)))),
{
    if let Some(t) = nearest_talk {
        return InteractionOutcome::Talk(t);
    }
    match nearest_door {
        Some((e, d)) => InteractionOutcome::Door(e, door_reaction(&d)),
        None => InteractionOutcome::Nothing,
    }
}

/// How the interaction help box changes.
#[derive(Debug)]
pub enum HelpBoxUpdate {
    /// The box is hidden and its text emptied.
    Hide,
    /// The box shows this text.
    Show(String),
    /// The box stays as it was.
    Unchanged,
}

/// The text, if any, that the help box shows for a door within reach.
pub open spec fn door_help(door: Door) -> Option<Seq<char>> {
    match door.interaction {
        DoorInteraction::Knock => if door.status == DoorStatus::Open {
            None
        } else {
            Some("Press E to knock door"@)
        },
        DoorInteraction::Open => match door.status {
            DoorStatus::Open => Some("Press E to close door"@),
            DoorStatus::Locked => Some("Press E to unlock door"@),
            _ => Some("Press E to open door"@),
        },
    }
}

/// Whether an update is the one the help box gets: hidden when the player does not play or has
/// nothing within reach; otherwise a hint for the light switch, the talk spot or the nearest door,
/// in that order; and no change for an open door that is knocked at.
pub open spec fn help_box_update_is(
    r: HelpBoxUpdate,
    playing: bool,
    near_switch: bool,
    near_talk: bool,
    nearest_door: Option<Door>,
) -> bool {
    if !playing {
        r is Hide
    } else if near_switch {
        r matches HelpBoxUpdate::Show(s) && s@ == "Press E to switch light"@
    } else if near_talk {
        r matches HelpBoxUpdate::Show(s) && s@ == "Press E to talk"@
    } else {
        match nearest_door {
            None => r is Hide,
            Some(d) => match door_help(d) {
                Some(text) => r matches HelpBoxUpdate::Show(s) && s@ == text,
                None => r is Unchanged,
            },
        }
    }
}

/// The change to the interaction help box for what is within reach of the player.
pub fn help_box_update(
    playing: bool,
    near_switch: bool,
    near_talk: bool,
    nearest_door: Option<Door>,
) -> (r: HelpBoxUpdate)
    ensures
        help_box_update_is(r, playing, near_switch, near_talk, nearest_door),
        playing && !near_switch && near_talk ==> (r matches HelpBoxUpdate::Show(s) && s@
            == "Press E to talk"@),
        playing && near_switch ==> (r matches HelpBoxUpdate::Show(s) && s@ == "Press E to switch light"@),
        !playing ==> r is Hide,
{
    if !playing {
        return HelpBoxUpdate::Hide;
    }
    if near_switch {
        return HelpBoxUpdate::Show("Press E to switch light".to_owned());
    }
    if near_talk {
        return HelpBoxUpdate::Show("Press E to talk".to_owned());
    }
    match nearest_door {
        Some(door) => match door.interaction {
            DoorInteraction::Knock => {
                if !door.is_open() {
                    HelpBoxUpdate::Show("Press E to knock door".to_owned())
                } else {
                    HelpBoxUpdate::Unchanged
                }
            },
            DoorInteraction::Open => {
                let text = match door.status {
                    DoorStatus::Open => "Press E to close door".to_owned(),
                    DoorStatus::Locked => "Press E to unlock door".to_owned(),
                    _ => "Press E to open door".to_owned(),
                };
                HelpBoxUpdate::Show(text)
            },
        },
        None => HelpBoxUpdate::Hide,
    }
}


/// A talk spot in reach always wins over doors: whatever door is nearest, or none, the box
/// invites the player to talk, unless a light switch is in reach, which wins over both.
pub proof fn lemma_talk_hint_wins_over_doors(r: HelpBoxUpdate, near_switch: bool, nearest_door: Option<Door>)
    requires
        help_box_update_is(r, true, near_switch, true, nearest_door),
    ensures
        !near_switch ==> (r matches HelpBoxUpdate::Show(s) && s@ == "Press E to talk"@),
        near_switch ==> (r matches HelpBoxUpdate::Show(s) && s@ == "Press E to switch light"@),
{
}

} // verus!
