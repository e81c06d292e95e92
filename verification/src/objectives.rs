//! The rules that drive objectives: which objective is current, when all are
//! done, when a parent objective completes, and how sub-objectives find their
//! parent.
use crate::entity_index::{contains_entity, lookup_entities, TargetnameEntityIndex};
use vstd::prelude::*;

verus! {

/// A game objective.
pub struct Objective {
    /// The description of the objective.
    pub description: String,
}

impl Objective {
    /// An objective with the given description.
    pub fn new(description: String) -> (r: Self)
        ensures
            r.description@ == description@,
    {
        Objective { description }
    }
}

impl Default for Objective {
    /// An objective with an empty description.
    fn default() -> (r: Self)
        ensures
            r.description@ == Seq::<char>::empty(),
    {
        Objective { description: String::new() }
    }
}

/// Marker for completed objectives.
#[derive(Debug, Clone, Copy, PartialEq, Eq, Structural)]
pub struct ObjectiveCompleted;

/// Links a sub-objective to its parent objective, by the parent's entity bits.
#[derive(Debug, Clone, Copy, PartialEq, Eq, Structural)]
pub struct SubObjectiveOf {
    /// The parent objective entity.
    pub objective: u64,
}

/// The sub-objectives of a parent objective, by their entity bits.
pub struct SubObjectives(Vec<u64>);

impl SubObjectives {
    /// The sub-objectives, in the order they were related.
    pub closed spec fn spec_entities(&self) -> Seq<u64> {
        self.0@
    }

    /// A parent with the given sub-objectives.
    pub fn new(entities: Vec<u64>) -> (r: Self)
        ensures
            r.spec_entities() == entities@,
    {
        SubObjectives(entities)
    }

    /// The sub-objectives, in the order they were related.
    pub fn as_slice(&self) -> (r: &[u64])
        ensures
            r@ == self.spec_entities(),
    {
        self.0.as_slice()
    }
}

/// The objective that is current, if any, by its entity bits.
#[derive(Debug, Clone, Copy, PartialEq, Eq, Structural)]
pub struct CurrentObjective(pub Option<u64>);

/// The key by which `f32::total_cmp` orders a float with the given bits: the
/// bits read as a signed integer, with all bits but the sign flipped when the
/// sign is set. Keys compare as integers exactly as the floats compare under
/// `total_cmp`.
pub open spec fn order_key(bits: u32) -> i32 {
    let signed = bits as i32;
    (signed ^ ((((signed >> 31u32) as u32) >> 1u32) as i32)) as i32
}

/// The `total_cmp` key of a float given by its bits.
pub fn total_order_key(bits: u32) -> (r: i32)
    ensures
        r == order_key(bits),
{
    let signed = bits as i32;
    signed ^ ((((signed >> 31u32) as u32) >> 1u32) as i32)
}

/// The keys order floats as `f32::total_cmp` does: among floats with the sign
/// bit clear, a larger bit pattern is a larger float; among floats with the sign
/// bit set, a larger bit pattern is a smaller float; and every float with the
/// sign bit set comes before every float with it clear.
pub proof fn lemma_order_key_orders_like_total_cmp(a: u32, b: u32)
    ensures
        (a < 0x8000_0000 && b < 0x8000_0000) ==> (order_key(a) < order_key(b) <==> a < b),
        (a >= 0x8000_0000 && b >= 0x8000_0000) ==> (order_key(a) < order_key(b) <==> a > b),
        (a >= 0x8000_0000 && b < 0x8000_0000) ==> order_key(a) < order_key(b),
{
    assert((a < 0x8000_0000 && b < 0x8000_0000) ==> (order_key(a) < order_key(b) <==> a < b)) by (bit_vector);
    assert((a >= 0x8000_0000 && b >= 0x8000_0000) ==> (order_key(a) < order_key(b) <==> a > b)) by (bit_vector);
    assert((a >= 0x8000_0000 && b < 0x8000_0000) ==> order_key(a) < order_key(b)) by (bit_vector);
}

/// Whether the entry at `i` is the first entry with the least key.
pub open spec fn is_first_minimum(keys: Seq<(u64, u32)>, i: int) -> bool {
    &&& 0 <= i < keys.len()
    &&& forall|j: int| 0 <= j < keys.len() ==> order_key(keys[i].1) <= order_key(#[trigger] keys[j].1)
    &&& forall|j: int| 0 <= j < i ==> order_key(keys[i].1) < order_key(#[trigger] keys[j].1)
}

/// The current objective among the open top-level objectives, each given as its
/// entity and the bits of its `objective_order`: the one with the least order,
/// the first of them on a tie; none when there is no open objective.
pub fn current_objective(candidates: &Vec<(u64, u32)>) -> (r: Option<u64>)
    ensures
        r is None <==> candidates@.len() == 0,
        r matches Some(e) ==> exists|i: int| is_first_minimum(candidates@, i) && #[trigger] candidates@[i].0 == e,
{
    if candidates.len() == 0 {
        return None;
    }
    let mut best: usize = 0;
    let mut best_key = total_order_key(candidates[0].1);
    let mut i: usize = 1;
    while i < candidates.len()
        invariant
            1 <= i <= candidates.len(),
            best < i,
            best_key == order_key(candidates@[best as int].1),
            forall|j: int| 0 <= j < i ==> best_key <= order_key(#[trigger] candidates@[j].1),
            forall|j: int| 0 <= j < best ==> best_key < order_key(#[trigger] candidates@[j].1),
        decreases candidates.len() - i,
    {
        let key = total_order_key(candidates[i].1);
        if key < best_key {
            best = i;
            best_key = key;
        }
        i = i + 1;
    }
    assert(is_first_minimum(candidates@, best as int));
    Some(candidates[best].0)
}

/// Whether every objective is done: no top-level objective is open and at
/// least one is completed.
pub fn all_objectives_done(open_top_level: usize, completed_top_level: usize) -> (r: bool)
    ensures
        r == (open_top_level == 0 && completed_top_level > 0),
{
    open_top_level == 0 && completed_top_level > 0
}

/// The number of `true` entries of a list.
pub open spec fn count_true(s: Seq<bool>) -> nat
    decreases s.len(),
{
    if s.len() == 0 {
        0
    } else {
        count_true(s.drop_last()) + if s.last() { 1nat } else { 0nat }
    }
}

/// A list has as many `true` entries as it has entries exactly when all are true.
proof fn lemma_count_true(s: Seq<bool>)
    ensures
        count_true(s) <= s.len(),
        count_true(s) == s.len() <==> forall|i: int| 0 <= i < s.len() ==> s[i],
    decreases s.len(),
{
    if s.len() > 0 {
        lemma_count_true(s.drop_last());
        if count_true(s) == s.len() {
            assert forall|i: int| 0 <= i < s.len() implies s[i] by {
                if i < s.len() - 1 {
                    assert(s.drop_last()[i] == s[i]);
                }
            }
        }
        if forall|i: int| 0 <= i < s.len() ==> s[i] {
            assert forall|i: int| 0 <= i < s.drop_last().len() implies s.drop_last()[i] by {
                assert(s[i]);
            }
        }
    }
}

/// Whether a parent objective completes, given for each of its sub-objectives
/// whether that one is completed: when the completed ones are as many as the
/// sub-objectives, that is, when all are completed.
pub fn parent_objective_completes(sub_completed: &Vec<bool>) -> (r: bool)
    ensures
        r == forall|i: int| 0 <= i < sub_completed@.len() ==> sub_completed@[i],
{
    let mut count: usize = 0;
    let mut i: usize = 0;
    while i < sub_completed.len()
        invariant
            i <= sub_completed.len(),
            count == count_true(sub_completed@.take(i as int)),
            count <= i,
        decreases sub_completed.len() - i,
    {
        proof {
            assert(sub_completed@.take(i + 1).drop_last() == sub_completed@.take(i as int));
            lemma_count_true(sub_completed@.take(i as int));
        }
        if sub_completed[i] {
            count = count + 1;
        }
        i = i + 1;
    }
    proof {
        assert(sub_completed@.take(i as int) == sub_completed@);
        lemma_count_true(sub_completed@);
    }
    count == sub_completed.len()
}

/// Where an objective that was just spawned is attached.
#[derive(Debug, Clone, Copy, PartialEq, Eq, Structural)]
pub enum ObjectiveLink {
    /// It names no parent: it is a top-level objective.
    TopLevel,
    /// It is a sub-objective of this parent objective.
    SubObjectiveOf(u64),
    /// Its parent is not spawned yet; try again later.
    Pending,
}

/// The position of the first entity of `candidates` that is an objective.
pub open spec fn is_first_objective(candidates: Seq<u64>, objectives: Seq<u64>, i: int) -> bool {
    &&& 0 <= i < candidates.len()
    &&& objectives.contains(candidates[i])
    &&& forall|j: int| 0 <= j < i ==> !objectives.contains(#[trigger] candidates[j])
}

/// Where an objective is attached: with no parent targetname it is top level;
/// otherwise its parent is the first entity registered under that targetname
/// that is an objective, and it waits while there is none.
pub fn link_objective(target: Option<&str>, index: &TargetnameEntityIndex, objectives: &Vec<u64>) -> (r: ObjectiveLink)
    ensures
        target is None ==> r == ObjectiveLink::TopLevel,
        target is Some ==> r != ObjectiveLink::TopLevel,
        r matches ObjectiveLink::SubObjectiveOf(p) ==> exists|i: int|
            is_first_objective(lookup_entities(index@, target->0@), objectives@, i)
                && #[trigger] lookup_entities(index@, target->0@)[i] == p,
        r == ObjectiveLink::Pending ==> forall|i: int|
            0 <= i < lookup_entities(index@, target->0@).len() ==> !objectives@.contains(
                #[trigger] lookup_entities(index@, target->0@)[i],
            ),
{
    match target {
        None => ObjectiveLink::TopLevel,
        Some(t) => {
            let candidates = index.get_entity_by_targetname(t);
            let mut i: usize = 0;
            while i < candidates.len()
                invariant
                    i <= candidates@.len(),
                    target == Some(t),
                    candidates@ == lookup_entities(index@, t@),
                    forall|j: int| 0 <= j < i ==> !objectives@.contains(#[trigger] candidates@[j]),
                decreases candidates.len() - i,
            {
                if contains_entity(objectives, candidates[i]) {
                    assert(is_first_objective(lookup_entities(index@, t@), objectives@, i as int));
                    assert(lookup_entities(index@, t@)[i as int] == candidates@[i as int]);
                    let found = candidates[i];
                    assert(target->0 == t);
                    assert(target->0@ == t@);
                    assert(exists|k: int|
                        is_first_objective(lookup_entities(index@, t@), objectives@, k) && #[trigger] lookup_entities(index@, t@)[k] == found);
                    return ObjectiveLink::SubObjectiveOf(found);
                }
                i = i + 1;
            }
            ObjectiveLink::Pending
        },
    }
}

/// The entities of `list` that are objectives, in order.
pub open spec fn objectives_among(list: Seq<u64>, objectives: Seq<u64>) -> Seq<u64> {
    list.filter(|e: u64| objectives.contains(e))
}

/// The objectives that a dialogue completes by targetname: every entity
/// registered under the identifier that is an objective, in registration order.
pub fn objectives_to_complete(identifier: &str, index: &TargetnameEntityIndex, objectives: &Vec<u64>) -> (r: Vec<u64>)
    ensures
        r@ == objectives_among(lookup_entities(index@, identifier@), objectives@),
{
    let candidates = index.get_entity_by_targetname(identifier);
    let mut r: Vec<u64> = Vec::new();
    let mut i: usize = 0;
    while i < candidates.len()
        invariant
            i <= candidates@.len(),
            candidates@ == lookup_entities(index@, identifier@),
            r@ == objectives_among(candidates@.take(i as int), objectives@),
        decreases candidates.len() - i,
    {
        proof {
            assert(candidates@.take(i + 1) == candidates@.take(i as int).push(candidates@[i as int]));
            candidates@.take(i as int).lemma_filter_push(candidates@[i as int], |e: u64| objectives@.contains(e));
        }
        if contains_entity(objectives, candidates[i]) {
            r.push(candidates[i]);
        }
        i = i + 1;
    }
    proof {
        assert(candidates@.take(i as int) == candidates@);
    }
    r
}

/// The targetname of the current objective for dialogue, or the empty text when
/// there is no current objective or it has no targetname.
pub fn dialogue_objective_name(name: Option<&str>) -> (r: String)
    ensures
        r@ == match name {
            Some(n) => n@,
            None => Seq::<char>::empty(),
        },
{
    match name {
        Some(n) => n.to_owned(),
        None => String::new(),
    }
}

/// The parent that a sub-objective link names for `entity`: the first link of
/// `entity` in `links`, each given as (sub-objective, parent).
pub open spec fn parent_of(links: Seq<(u64, u64)>, entity: u64) -> Option<u64>
    decreases links.len(),
{
    if links.len() == 0 {
        None
    } else {
        match parent_of(links.drop_last(), entity) {
            Some(p) => Some(p),
            None => if links.last().0 == entity {
                Some(links.last().1)
            } else {
                None
            },
        }
    }
}

/// The depth of the last node laid out for `entity`, if one was.
pub open spec fn node_depth(nodes: Seq<(u64, u64, usize, bool)>, entity: u64) -> Option<usize>
    decreases nodes.len(),
{
    if nodes.len() == 0 {
        None
    } else if nodes.last().0 == entity {
        Some(nodes.last().2)
    } else {
        node_depth(nodes.drop_last(), entity)
    }
}

/// Whether some node laid out already hangs under the node of `parent`.
pub open spec fn has_sub_list(nodes: Seq<(u64, u64, usize, bool)>, parent: u64) -> bool {
    exists|k: int| 0 <= k < nodes.len() && (#[trigger] nodes[k]).1 == parent
}

/// The nodes of the objective tree below the current objective `root`, which
/// has depth 0, for its descendants in the order given. Each entry is the
/// sub-objective, its parent, its depth (one more than its parent's) and
/// whether a new list node is made under the parent's node for it (the first
/// sub-objective of that parent). A descendant with no link, or whose parent
/// has no node yet, gets none.
pub open spec fn spec_sub_objective_nodes(root: u64, descendants: Seq<u64>, links: Seq<(u64, u64)>) -> Seq<(u64, u64, usize, bool)>
    decreases descendants.len(),
{
    if descendants.len() == 0 {
        Seq::empty()
    } else {
        let nodes = spec_sub_objective_nodes(root, descendants.drop_last(), links);
        let e = descendants.last();
        match parent_of(links, e) {
            None => nodes,
            Some(p) => {
                let parent_depth = if p == root { Some(0usize) } else { node_depth(nodes, p) };
                match parent_depth {
                    None => nodes,
                    Some(d) => nodes.push((e, p, (d + 1) as usize, !has_sub_list(nodes, p))),
                }
            },
        }
    }
}

/// The parent that the links name for `entity`.
fn find_parent(links: &Vec<(u64, u64)>, entity: u64) -> (r: Option<u64>)
    ensures
        r == parent_of(links@, entity),
{
    let mut found: Option<u64> = None;
    let mut i: usize = 0;
    while i < links.len()
        invariant
            i <= links.len(),
            found == parent_of(links@.take(i as int), entity),
        decreases links.len() - i,
    {
        proof {
            assert(links@.take(i + 1).drop_last() == links@.take(i as int));
        }
        if found.is_none() && links[i].0 == entity {
            found = Some(links[i].1);
        }
        i = i + 1;
    }
    proof {
        assert(links@.take(i as int) == links@);
    }
    found
}

/// The depth of the last node laid out for `entity`, and whether some node
/// hangs under it already.
fn lookup_node(nodes: &Vec<(u64, u64, usize, bool)>, entity: u64) -> (r: (Option<usize>, bool))
    ensures
        r.0 == node_depth(nodes@, entity),
        r.0 matches Some(d) ==> exists|k: int| 0 <= k < nodes@.len() && nodes@[k].0 == entity && #[trigger] nodes@[k].2 == d,
        r.1 == has_sub_list(nodes@, entity),
{
    let mut depth: Option<usize> = None;
    let mut listed = false;
    let mut i: usize = 0;
    while i < nodes.len()
        invariant
            i <= nodes.len(),
            depth == node_depth(nodes@.take(i as int), entity),
            depth matches Some(d) ==> exists|k: int| 0 <= k < i && nodes@[k].0 == entity && #[trigger] nodes@[k].2 == d,
            listed == has_sub_list(nodes@.take(i as int), entity),
        decreases nodes.len() - i,
    {
        proof {
            assert(nodes@.take(i + 1).drop_last() == nodes@.take(i as int));
            if has_sub_list(nodes@.take(i as int), entity) {
                let k = choose|k: int| 0 <= k < i && (#[trigger] nodes@.take(i as int)[k]).1 == entity;
                assert(nodes@.take(i + 1)[k] == nodes@.take(i as int)[k]);
            }
            if has_sub_list(nodes@.take(i + 1), entity) && !has_sub_list(nodes@.take(i as int), entity) {
                let k = choose|k: int| 0 <= k < i + 1 && (#[trigger] nodes@.take(i + 1)[k]).1 == entity;
                if k < i {
                    assert(nodes@.take(i as int)[k] == nodes@.take(i + 1)[k]);
                }
            }
        }
        if nodes[i].0 == entity {
            depth = Some(nodes[i].2);
        }
        if nodes[i].1 == entity {
            listed = true;
            assert(nodes@.take(i + 1)[i as int].1 == entity);
        }
        i = i + 1;
    }
    proof {
        assert(nodes@.take(i as int) == nodes@);
    }
    (depth, listed)
}

/// Lays out the objective tree below the current objective `root`: for each
/// descendant in the order given, with `links` the sub-objective links as
/// (sub-objective, parent), its parent, depth and whether a list node is made
/// for it (see [`spec_sub_objective_nodes`]).
pub fn sub_objective_nodes(root: u64, descendants: &Vec<u64>, links: &Vec<(u64, u64)>) -> (r: Vec<(u64, u64, usize, bool)>)
    ensures
        r@ == spec_sub_objective_nodes(root, descendants@, links@),
{
    let mut nodes: Vec<(u64, u64, usize, bool)> = Vec::new();
    let mut i: usize = 0;
    while i < descendants.len()
        invariant
            i <= descendants.len(),
            nodes@ == spec_sub_objective_nodes(root, descendants@.take(i as int), links@),
            nodes@.len() <= i,
            forall|k: int| 0 <= k < nodes@.len() ==> #[trigger] nodes@[k].2 <= k + 1,
        decreases descendants.len() - i,
    {
        proof {
            assert(descendants@.take(i + 1).drop_last() == descendants@.take(i as int));
        }
        let e = descendants[i];
        if let Some(p) = find_parent(links, e) {
            let (depth, listed) = lookup_node(&nodes, p);
            let parent_depth = if p == root { Some(0usize) } else { depth };
            if let Some(d) = parent_depth {
                nodes.push((e, p, d + 1, !listed));
            }
        }
        i = i + 1;
    }
    proof {
        assert(descendants@.take(i as int) == descendants@);
    }
    nodes
}

/// The font size of an objective's text at a depth of the tree: 16 at the top,
/// two less per level, and never below 10.
pub open spec fn spec_font_size(depth: int) -> int {
    if 16 - 2 * depth >= 10 {
        16 - 2 * depth
    } else {
        10
    }
}

/// The font size of an objective's text at the given depth.
pub fn objective_font_size(depth: usize) -> (r: u32)
    ensures
        r == spec_font_size(depth as int),
{
    if depth >= 3 {
        10
    } else {
        16 - 2 * (depth as u32)
    }
}

/// The gap between the rows of an objective node or list at a depth of the
/// tree, in half pixels: 10 (five pixels) at the top, one half pixel less per
/// level, and never below 4 (two pixels).
pub open spec fn spec_row_gap_half_px(depth: int) -> int {
    if 10 - depth >= 4 {
        10 - depth
    } else {
        4
    }
}

/// The row gap of an objective node or list at the given depth, in half pixels.
pub fn objective_row_gap_half_px(depth: usize) -> (r: u32)
    ensures
        r == spec_row_gap_half_px(depth as int),
{
    if depth >= 6 {
        4
    } else {
        10 - (depth as u32)
    }
}

} // verus!
