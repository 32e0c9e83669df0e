use chaincore::laundry::{ClothesAction, ClothesMachine, ClothesState};

#[test]
fn sm_2_wear_clean_clothes() {
    let starting_state = ClothesState::Clean(3);
    assert_eq!(
        ClothesMachine::next_state(&starting_state, &ClothesAction::Wear),
        ClothesState::Dirty(2)
    )
}

#[test]
fn sm_2_wear_dirty_clothes() {
    let starting_state = ClothesState::Dirty(3);
    assert_eq!(
        ClothesMachine::next_state(&starting_state, &ClothesAction::Wear),
        ClothesState::Dirty(1)
    )
}

#[test]
fn sm_2_wear_wet_clothes() {
    let starting_state = ClothesState::Dirty(3);
    assert_eq!(
        ClothesMachine::next_state(&starting_state, &ClothesAction::Wear),
        ClothesState::Dirty(1)
    )
}

#[test]
fn sm_2_wear_tattered_clothes() {
    let starting_state = ClothesState::Tattered;
    assert_eq!(
        ClothesMachine::next_state(&starting_state, &ClothesAction::Wear),
        ClothesState::Tattered
    )
}

#[test]
fn sm_2_wash_clean_clothes() {
    let starting_state = ClothesState::Clean(5);
    assert_eq!(
        ClothesMachine::next_state(&starting_state, &ClothesAction::Wash),
        ClothesState::Wet(3)
    )
}

#[test]
fn sm_2_wash_dirty_clothes() {
    let starting_state = ClothesState::Dirty(5);
    assert_eq!(
        ClothesMachine::next_state(&starting_state, &ClothesAction::Wash),
        ClothesState::Wet(4)
    )
}

#[test]
fn sm_2_wash_wet_clothes() {
    let starting_state = ClothesState::Wet(5);
    assert_eq!(
        ClothesMachine::next_state(&starting_state, &ClothesAction::Wash),
        ClothesState::Wet(3)
    )
}

#[test]
fn sm_2_wash_tattered_clothes() {
    let starting_state = ClothesState::Tattered;
    assert_eq!(
        ClothesMachine::next_state(&starting_state, &ClothesAction::Wash),
        ClothesState::Tattered
    )
}

#[test]
fn sm_2_dry_clean_clothes() {
    let starting_state = ClothesState::Clean(3);
    assert_eq!(
        ClothesMachine::next_state(&starting_state, &ClothesAction::Dry),
        ClothesState::Clean(1)
    )
}

#[test]
fn sm_2_dry_dirty_clothes() {
    let starting_state = ClothesState::Dirty(3);
    assert_eq!(
        ClothesMachine::next_state(&starting_state, &ClothesAction::Dry),
        ClothesState::Dirty(0)
    )
}

#[test]
fn sm_2_dry_wet_clothes() {
    let starting_state = ClothesState::Wet(3);
    assert_eq!(
        ClothesMachine::next_state(&starting_state, &ClothesAction::Dry),
        ClothesState::Clean(2)
    )
}

#[test]
fn sm_2_dry_tattered_clothes() {
    let starting_state = ClothesState::Tattered;
    assert_eq!(
        ClothesMachine::next_state(&starting_state, &ClothesAction::Dry),
        ClothesState::Tattered
    )
}
