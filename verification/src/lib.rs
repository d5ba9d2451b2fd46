//! The rules of Haunted: the states of the game, its doors, dialogs, input, lock picking, the
//! first chapter's floor and neighbours, the menus and the loading screen, each with its
//! contract, and the laws that tie them together.

use vstd::prelude::*;

pub mod chapter_one;
pub mod dialog;
pub mod door;
pub mod input;
pub mod interaction;
pub mod loading;
pub mod lock_picking;
pub mod menu;
pub mod states;

verus! {
}
