use office_fever::interactables::{EdibleMarkerAction, InteractableEntity};
use office_fever::interaction::{
    interaction_hint_text, interaction_targets, offered_interaction, AvailableInteraction,
};
use office_fever::entity_index::TargetnameEntityIndex;

fn plain() -> InteractableEntity {
    InteractableEntity::default()
}

#[test]
fn hover_text_prefers_override() {
    let mut i = plain();
    i.is_edible = true;
    i.interaction_text_override = Some("Take a bite".to_string());
    assert_eq!(i.get_hover_text(), Some("Take a bite"));
}

#[test]
fn hover_text_of_edible_is_eat() {
    let mut i = plain();
    i.is_edible = true;
    assert_eq!(i.get_hover_text(), Some("Eat"));
}

#[test]
fn hover_text_of_relay_only_is_interact() {
    let mut i = plain();
    i.interaction_relay = Some("lamp".to_string());
    assert_eq!(i.get_hover_text(), Some("Interact"));
    let mut j = plain();
    j.completes_subobjective = Some("leave".to_string());
    assert_eq!(j.get_hover_text(), Some("Interact"));
}

#[test]
fn inactive_interactable_has_no_hover_text() {
    let i = plain();
    assert!(!i.is_active());
    assert_eq!(i.get_hover_text(), None);
}

#[test]
fn hover_text_present_exactly_when_active() {
    let mut cases = Vec::new();
    for mask in 0..16u8 {
        let mut i = plain();
        i.is_edible = mask & 1 != 0;
        if mask & 2 != 0 {
            i.interaction_text_override = Some("t".to_string());
        }
        if mask & 4 != 0 {
            i.completes_subobjective = Some("o".to_string());
        }
        if mask & 8 != 0 {
            i.interaction_relay = Some("r".to_string());
        }
        cases.push(i);
    }
    for i in &cases {
        assert_eq!(i.get_hover_text().is_some(), i.is_active());
    }
}

#[test]
fn new_from_text_sets_only_the_override() {
    let i = InteractableEntity::new_from_text("Clopen".to_string());
    assert!(!i.get_is_edible());
    assert_eq!(i.get_interaction_text_override(), Some("Clopen"));
    assert_eq!(i.get_completes_subobjective(), None);
    assert_eq!(i.get_interaction_relay(), None);
    assert_eq!(i.get_hover_text(), Some("Clopen"));
}

#[test]
fn add_override_keeps_an_existing_override() {
    let i = InteractableEntity::new_from_text("Clopen".to_string());
    let j = i.add_override("Talk");
    assert_eq!(j.get_interaction_text_override(), Some("Clopen"));
}

#[test]
fn add_override_fills_a_missing_override_and_is_idempotent() {
    let mut i = plain();
    i.completes_subobjective = Some("leave".to_string());
    let j = i.add_override("Talk");
    assert_eq!(j.get_interaction_text_override(), Some("Talk"));
    assert_eq!(j.get_completes_subobjective(), Some("leave"));
    assert!(j.is_active());
    let k = j.add_override("Talk");
    assert_eq!(k.get_interaction_text_override(), Some("Talk"));
    assert_eq!(i.get_interaction_text_override(), None);
}

#[test]
fn edible_marker_follows_edibility() {
    let mut i = plain();
    assert_eq!(i.edible_marker_action(), EdibleMarkerAction::Remove);
    i.is_edible = true;
    assert_eq!(i.edible_marker_action(), EdibleMarkerAction::InsertIfNew);
}

#[test]
fn interaction_reaches_entity_then_relays() {
    let mut index = TargetnameEntityIndex::new();
    index.register_entity(10, "lamp");
    index.register_entity(11, "lamp");
    index.register_entity(3, "lamp");
    assert_eq!(interaction_targets(&index, 3, Some("lamp")), vec![3, 10, 11]);
    assert_eq!(interaction_targets(&index, 3, None), vec![3]);
    assert_eq!(interaction_targets(&index, 3, Some("nothing")), vec![3]);
}

#[test]
fn offered_interaction_needs_an_active_interactable() {
    assert_eq!(offered_interaction(Some(4), true), Some(4));
    assert_eq!(offered_interaction(Some(4), false), None);
    assert_eq!(offered_interaction(None, true), None);
    assert_eq!(AvailableInteraction::default().target_entity, None);
}

#[test]
fn hint_texts() {
    let mut edible = plain();
    edible.is_edible = true;
    assert_eq!(interaction_hint_text(None, Some(&edible)), "");
    assert_eq!(interaction_hint_text(Some(1), None), "Click: ???");
    assert_eq!(interaction_hint_text(Some(1), Some(&edible)), "Click:Eat");
    assert_eq!(interaction_hint_text(Some(1), Some(&plain())), "");
}
