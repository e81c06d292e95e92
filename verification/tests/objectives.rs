use office_fever::entity_index::TargetnameEntityIndex;
use office_fever::objectives::{
    all_objectives_done, current_objective, dialogue_objective_name, link_objective,
    objective_font_size, objective_row_gap_half_px, objectives_to_complete, parent_objective_completes,
    sub_objective_nodes, total_order_key, CurrentObjective,
    Objective, ObjectiveLink, SubObjectiveOf, SubObjectives,
};

fn bits(x: f32) -> u32 {
    x.to_bits()
}

#[test]
fn order_key_orders_like_total_cmp() {
    let values = [-2.5f32, -1.0, -0.0, 0.0, 0.5, 1.0, 3.0, f32::INFINITY, f32::NEG_INFINITY];
    for a in values {
        for b in values {
            assert_eq!(
                total_order_key(bits(a)).cmp(&total_order_key(bits(b))),
                a.total_cmp(&b)
            );
        }
    }
}

#[test]
fn current_objective_is_least_order_first_on_tie() {
    let candidates = vec![(1, bits(2.0)), (2, bits(-1.0)), (3, bits(5.0)), (4, bits(-1.0))];
    assert_eq!(current_objective(&candidates), Some(2));
}

#[test]
fn no_open_objective_means_no_current() {
    assert_eq!(current_objective(&vec![]), None);
}

#[test]
fn all_done_needs_no_open_and_some_completed() {
    assert!(all_objectives_done(0, 2));
    assert!(!all_objectives_done(0, 0));
    assert!(!all_objectives_done(1, 3));
}

#[test]
fn parent_completes_when_all_subs_complete() {
    assert!(parent_objective_completes(&vec![true, true, true]));
    assert!(!parent_objective_completes(&vec![true, false, true]));
    assert!(parent_objective_completes(&vec![]));
}

#[test]
fn linking_sub_objectives() {
    let mut index = TargetnameEntityIndex::new();
    index.register_entity(20, "work");
    index.register_entity(21, "work");
    let objectives = vec![21, 30];
    assert_eq!(link_objective(None, &index, &objectives), ObjectiveLink::TopLevel);
    assert_eq!(link_objective(Some("work"), &index, &objectives), ObjectiveLink::SubObjectiveOf(21));
    assert_eq!(link_objective(Some("later"), &index, &objectives), ObjectiveLink::Pending);
    assert_eq!(link_objective(Some("work"), &index, &vec![]), ObjectiveLink::Pending);
}

#[test]
fn dialogue_completes_registered_objectives_only() {
    let mut index = TargetnameEntityIndex::new();
    index.register_entity(1, "leave");
    index.register_entity(2, "leave");
    index.register_entity(3, "leave");
    assert_eq!(objectives_to_complete("leave", &index, &vec![3, 1]), vec![1, 3]);
    assert!(objectives_to_complete("other", &index, &vec![3, 1]).is_empty());
}

#[test]
fn dialogue_objective_name_defaults_to_empty() {
    assert_eq!(dialogue_objective_name(Some("start_work")), "start_work");
    assert_eq!(dialogue_objective_name(None), "");
}

#[test]
fn objective_components() {
    assert_eq!(Objective::new("Clock In".to_string()).description, "Clock In");
    assert_eq!(Objective::default().description, "");
    assert_eq!(SubObjectives::new(vec![4, 5]).as_slice(), &[4, 5]);
    assert_eq!(SubObjectiveOf { objective: 9 }.objective, 9);
    assert_eq!(CurrentObjective(None), CurrentObjective(None));
}

#[test]
fn objective_tree_layout() {
    // Root 1 with sub-objectives 2 and 3; 4 is under 2; 5 names a parent with no node.
    let descendants = vec![2, 3, 4, 5, 6];
    let links = vec![(2, 1), (3, 1), (4, 2), (5, 99)];
    assert_eq!(
        sub_objective_nodes(1, &descendants, &links),
        vec![(2, 1, 1, true), (3, 1, 1, false), (4, 2, 2, true)]
    );
    assert!(sub_objective_nodes(1, &vec![], &links).is_empty());
}

#[test]
fn objective_text_sizes_by_depth() {
    assert_eq!(objective_font_size(0), 16);
    assert_eq!(objective_font_size(1), 14);
    assert_eq!(objective_font_size(3), 10);
    assert_eq!(objective_font_size(7), 10);
    assert_eq!(objective_row_gap_half_px(0), 10);
    assert_eq!(objective_row_gap_half_px(2), 8);
    assert_eq!(objective_row_gap_half_px(6), 4);
    assert_eq!(objective_row_gap_half_px(40), 4);
}
