use office_fever::entity_index::{TargetName, TargetnameEntityIndex};

#[test]
fn register_then_lookup_by_name_and_entity() {
    let mut index = TargetnameEntityIndex::new();
    index.register_entity(5, "door");
    index.register_entity(7, "door");
    index.register_entity(9, "lamp");
    assert_eq!(index.get_entity_by_targetname("door"), &[5, 7]);
    assert_eq!(index.get_entity_by_targetname("lamp"), &[9]);
    assert_eq!(index.get_targetname_of_entity(5), Some("door"));
    assert_eq!(index.get_targetname_of_entity(9), Some("lamp"));
}

#[test]
fn unknown_name_gives_no_entities() {
    let index = TargetnameEntityIndex::new();
    assert!(index.get_entity_by_targetname("nothing").is_empty());
    assert_eq!(index.get_targetname_of_entity(1), None);
}

#[test]
fn empty_targetname_is_skipped() {
    let mut index = TargetnameEntityIndex::new();
    index.register_entity(3, "");
    assert_eq!(index.get_targetname_of_entity(3), None);
    assert!(index.get_entity_by_targetname("").is_empty());
}

#[test]
fn remove_takes_entity_out_of_its_list() {
    let mut index = TargetnameEntityIndex::new();
    index.register_entity(5, "door");
    index.register_entity(7, "door");
    index.remove_entity(5);
    assert_eq!(index.get_entity_by_targetname("door"), &[7]);
    assert_eq!(index.get_targetname_of_entity(5), None);
    assert_eq!(index.get_targetname_of_entity(7), Some("door"));
}

#[test]
fn remove_of_unknown_entity_changes_nothing() {
    let mut index = TargetnameEntityIndex::new();
    index.register_entity(5, "door");
    index.remove_entity(42);
    assert_eq!(index.get_entity_by_targetname("door"), &[5]);
    assert_eq!(index.get_targetname_of_entity(5), Some("door"));
}

#[test]
fn remove_undoes_register_of_fresh_entity() {
    let mut index = TargetnameEntityIndex::new();
    index.register_entity(1, "a");
    index.register_entity(2, "b");
    index.remove_entity(2);
    assert_eq!(index.get_entity_by_targetname("a"), &[1]);
    assert!(index.get_entity_by_targetname("b").is_empty());
    assert_eq!(index.get_targetname_of_entity(2), None);
    assert_eq!(index.get_targetname_of_entity(1), Some("a"));
}

#[test]
fn reregistering_appends_and_keeps_the_old_listing() {
    let mut index = TargetnameEntityIndex::new();
    index.register_entity(4, "first");
    index.register_entity(5, "first");
    index.register_entity(4, "second");
    assert_eq!(index.get_targetname_of_entity(4), Some("second"));
    assert_eq!(index.get_entity_by_targetname("first"), &[4, 5]);
    assert_eq!(index.get_entity_by_targetname("second"), &[4]);
    index.remove_entity(4);
    assert_eq!(index.get_entity_by_targetname("first"), &[5]);
    assert!(index.get_entity_by_targetname("second").is_empty());
    assert_eq!(index.get_targetname_of_entity(5), Some("first"));
}

#[test]
fn remove_after_reregistering_leaves_the_entity_in_no_list() {
    let mut index = TargetnameEntityIndex::new();
    index.register_entity(7, "a");
    index.register_entity(7, "b");
    index.remove_entity(7);
    assert!(index.get_entity_by_targetname("a").is_empty());
    assert!(index.get_entity_by_targetname("b").is_empty());
    assert_eq!(index.get_targetname_of_entity(7), None);
}

#[test]
fn registering_twice_under_one_name_lists_twice() {
    let mut index = TargetnameEntityIndex::new();
    index.register_entity(6, "x");
    index.register_entity(8, "x");
    index.register_entity(6, "x");
    assert_eq!(index.get_entity_by_targetname("x"), &[6, 8, 6]);
    index.remove_entity(6);
    assert_eq!(index.get_entity_by_targetname("x"), &[8]);
}

#[test]
fn clear_forgets_everything() {
    let mut index = TargetnameEntityIndex::new();
    index.register_entity(1, "a");
    index.register_entity(2, "b");
    index.clear();
    assert!(index.get_entity_by_targetname("a").is_empty());
    assert!(index.get_entity_by_targetname("b").is_empty());
    assert_eq!(index.get_targetname_of_entity(1), None);
}

#[test]
fn target_name_holds_its_text() {
    assert_eq!(TargetName::new("start_work".to_string()).as_str(), "start_work");
    assert_eq!(TargetName::default().as_str(), "");
}

