//! A clothing-lifecycle state machine. Wearing clothes dirties them,
//! washing wets them, and drying readies them to be worn again. Wearing
//! and cleaning take their toll, and once the life is spent the clothes
//! are tattered for good.

use vstd::prelude::*;

verus! {

/// The clothing-lifecycle machine: a pure transition table from a state
/// and an action to the next state.
pub struct ClothesMachine;

/// Models a piece of clothing throughout its lifecycle.
#[derive(PartialEq, Eq, Structural, Debug)]
pub enum ClothesState {
    /// Clean clothes ready to be worn, with some given life left.
    Clean(u64),
    /// Dirty clothes, with some given life left.
    Dirty(u64),
    /// Wet clothes, with some given life left.
    Wet(u64),
    /// Tattered clothes beyond their useful life; they stay tattered.
    Tattered,
}

/// Something you can do with clothes.
pub enum ClothesAction {
    /// Wear the clothes.
    Wear,
    /// Wash the clothes.
    Wash,
    /// Dry the clothes.
    Dry,
}

/// How much life the action takes from clothes in the given state.
pub open spec fn spec_life_cost(s: ClothesState, t: ClothesAction) -> int {
    match s {
        ClothesState::Clean(_) => match t {
            ClothesAction::Wear => 1,
            ClothesAction::Wash => 2,
            ClothesAction::Dry => 2,
        },
        ClothesState::Dirty(_) => match t {
            ClothesAction::Wear => 2,
            ClothesAction::Wash => 1,
            ClothesAction::Dry => 3,
        },
        ClothesState::Wet(_) => match t {
            ClothesAction::Wear => 2,
            ClothesAction::Wash => 2,
            ClothesAction::Dry => 1,
        },
        ClothesState::Tattered => 0,
    }
}

/// Whether the clothes have enough life left to pay for the action.
pub open spec fn spec_has_life(s: ClothesState, t: ClothesAction) -> bool {
    match s {
        ClothesState::Clean(life) => spec_life_cost(s, t) <= life,
        ClothesState::Dirty(life) => spec_life_cost(s, t) <= life,
        ClothesState::Wet(life) => spec_life_cost(s, t) <= life,
        ClothesState::Tattered => true,
    }
}

/// The transition table: wearing dirties, washing wets, drying cleans,
/// and each action costs its share of life. Tattered clothes stay
/// tattered whatever is done to them.
pub open spec fn spec_next_state(s: ClothesState, t: ClothesAction) -> ClothesState {
    match s {
        ClothesState::Clean(life) => match t {
            ClothesAction::Wear => ClothesState::Dirty((life - 1) as u64),
            ClothesAction::Wash => ClothesState::Wet((life - 2) as u64),
            ClothesAction::Dry => ClothesState::Clean((life - 2) as u64),
        },
        ClothesState::Dirty(life) => match t {
            ClothesAction::Wear => ClothesState::Dirty((life - 2) as u64),
            ClothesAction::Wash => ClothesState::Wet((life - 1) as u64),
            ClothesAction::Dry => ClothesState::Dirty((life - 3) as u64),
        },
        ClothesState::Wet(life) => match t {
            ClothesAction::Wear => ClothesState::Dirty((life - 2) as u64),
            ClothesAction::Wash => ClothesState::Wet((life - 2) as u64),
            ClothesAction::Dry => ClothesState::Clean((life - 1) as u64),
        },
        ClothesState::Tattered => ClothesState::Tattered,
    }
}

impl ClothesMachine {
    /// Take one step of the lifecycle. The clothes must have enough life
    /// left to pay for the action.
    pub fn next_state(starting_state: &ClothesState, t: &ClothesAction) -> (r: ClothesState)
        requires
            spec_has_life(*starting_state, *t),
        ensures
            r == spec_next_state(*starting_state, *t),
    {
        match starting_state {
            ClothesState::Clean(life) => match t {
                ClothesAction::Wear => ClothesState::Dirty(life - 1),
                ClothesAction::Wash => ClothesState::Wet(life - 2),
                ClothesAction::Dry => ClothesState::Clean(life - 2),
            },
            ClothesState::Dirty(life) => match t {
                ClothesAction::Wear => ClothesState::Dirty(life - 2),
                ClothesAction::Wash => ClothesState::Wet(life - 1),
                ClothesAction::Dry => ClothesState::Dirty(life - 3),
            },
            ClothesState::Wet(life) => match t {
                ClothesAction::Wear => ClothesState::Dirty(life - 2),
                ClothesAction::Wash => ClothesState::Wet(life - 2),
                ClothesAction::Dry => ClothesState::Clean(life - 1),
            },
            ClothesState::Tattered => ClothesState::Tattered,
        }
    }
}

} // verus!
