use pkrd::views::gen2::{Gen2Views, LeftGen2View, RightGen2View};
use pkrd::views::gen7::{next_rng_slot, RngSlot};

#[test]
fn views_toggle_on_their_combinations() {
    let mut views = Gen2Views::default();
    assert_eq!(views.left_view, LeftGen2View::Hidden);
    assert_eq!(views.right_view, RightGen2View::Hidden);
    views.update_views(true, false);
    assert_eq!(views.right_view, RightGen2View::RngView);
    assert_eq!(views.left_view, LeftGen2View::Hidden);
    views.update_views(false, true);
    assert_eq!(views.left_view, LeftGen2View::NetworkView);
    views.update_views(true, true);
    assert_eq!(views.right_view, RightGen2View::Hidden);
    assert_eq!(views.left_view, LeftGen2View::Hidden);
    views.update_views(false, false);
    assert_eq!(views.right_view, RightGen2View::Hidden);
}

#[test]
fn rng_slot_pages_around() {
    let slot = RngSlot::default();
    assert_eq!(slot.value(), 0);
    let slot = next_rng_slot(slot, true, false);
    assert_eq!(slot.value(), 1);
    let slot = next_rng_slot(slot, true, false);
    assert_eq!(slot.value(), 0);
    let slot = next_rng_slot(slot, false, true);
    assert_eq!(slot.value(), 1);
    let slot = next_rng_slot(slot, true, true);
    assert_eq!(slot.value(), 1);
    let slot = next_rng_slot(slot, false, false);
    assert_eq!(slot.value(), 1);
    assert_eq!(RngSlot::new().value(), 0);
}
