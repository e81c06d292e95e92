//! Rules of the script commands that read, toggle and set component fields on
//! entities found by targetname.
use crate::entity_index::{contains_entity, lookup_entities, TargetnameEntityIndex};
use vstd::prelude::*;

verus! {

/// A component field as the toggle and read commands see it.
#[derive(Debug, Clone, Copy, PartialEq, Eq, Structural)]
pub enum BoolField {
    /// A `bool` field.
    Plain(bool),
    /// An `Option<bool>` field.
    Optional(Option<bool>),
    /// A field of any other type.
    Other,
}

/// The value of a field after the toggle command, or none when the field
/// cannot be toggled (it is no flag, or an empty optional flag).
pub open spec fn spec_toggled(field: BoolField) -> Option<BoolField> {
    match field {
        BoolField::Plain(b) => Some(BoolField::Plain(!b)),
        BoolField::Optional(Some(b)) => Some(BoolField::Optional(Some(!b))),
        _ => None,
    }
}

/// The field after the toggle command: a flag is negated, an optional flag
/// holding a value has it negated; anything else is left alone and `None` is
/// returned so that the caller can warn.
pub fn toggled(field: BoolField) -> (r: Option<BoolField>)
    ensures
        r == spec_toggled(field),
{
    match field {
        BoolField::Plain(b) => Some(BoolField::Plain(!b)),
        BoolField::Optional(Some(b)) => Some(BoolField::Optional(Some(!b))),
        _ => None,
    }
}

/// Whether a field reads as true: a true flag, or an optional flag holding true.
pub open spec fn spec_reads_true(field: BoolField) -> bool {
    match field {
        BoolField::Plain(b) => b,
        BoolField::Optional(Some(b)) => b,
        _ => false,
    }
}

/// The read command over the fields of every entity it reached: true when any
/// of them reads as true.
pub fn read_bool_fields(fields: &Vec<BoolField>) -> (r: bool)
    ensures
        r == exists|i: int| 0 <= i < fields@.len() && spec_reads_true(#[trigger] fields@[i]),
        r == exists|i: int| 0 <= i < fields@.len()
            && (#[trigger] fields@[i] == BoolField::Plain(true) || fields@[i] == BoolField::Optional(Some(true))),
{
    proof {
        lemma_reads_true_exactly_when_true(fields@);
    }
    let mut result = false;
    let mut i: usize = 0;
    while i < fields.len()
        invariant
            i <= fields@.len(),
            result == exists|j: int| 0 <= j < i && spec_reads_true(#[trigger] fields@[j]),
        decreases fields.len() - i,
    {
        let reads_true = match fields[i] {
            BoolField::Plain(b) => b,
            BoolField::Optional(Some(b)) => b,
            _ => false,
        };
        if reads_true {
            result = true;
        }
        assert(spec_reads_true(fields@[i as int]) == reads_true);
        i = i + 1;
    }
    result
}

/// The entities that a field command modifies: the entities registered under
/// the targetname, in order, up to the first one that lacks the component. The
/// command stops at that entity and modifies none listed after it.
pub open spec fn spec_entities_to_mutate(list: Seq<u64>, with_component: Seq<u64>, n: int) -> bool {
    &&& 0 <= n <= list.len()
    &&& forall|j: int| 0 <= j < n ==> with_component.contains(#[trigger] list[j])
    &&& n < list.len() ==> !with_component.contains(list[n])
}

/// The entities that a field command on `targetname` modifies, given the
/// entities that have the field's component.
pub fn entities_to_mutate(index: &TargetnameEntityIndex, targetname: &str, with_component: &Vec<u64>) -> (r: Vec<u64>)
    ensures
        spec_entities_to_mutate(lookup_entities(index@, targetname@), with_component@, r@.len() as int),
        r@ == lookup_entities(index@, targetname@).take(r@.len() as int),
{
    let list = index.get_entity_by_targetname(targetname);
    let mut r: Vec<u64> = Vec::new();
    let mut i: usize = 0;
    while i < list.len()
        invariant
            i <= list@.len(),
            list@ == lookup_entities(index@, targetname@),
            r@ == list@.take(i as int),
            forall|j: int| 0 <= j < i ==> with_component@.contains(#[trigger] list@[j]),
        decreases list.len() - i,
    {
        if !contains_entity(with_component, list[i]) {
            return r;
        }
        r.push(list[i]);
        assert(list@.take(i + 1) == list@.take(i as int).push(list@[i as int]));
        i = i + 1;
    }
    assert(list@.take(i as int) == list@);
    r
}

/// A field reads as true exactly when it holds true: a flag reads as its value,
/// an optional flag as the value it holds, and an empty optional flag or a field
/// of another type reads as false. So a read over a list of fields is true
/// exactly when one of them is a true flag or an optional flag holding true.
pub proof fn lemma_reads_true_exactly_when_true(fields: Seq<BoolField>)
    ensures
        forall|b: bool| #[trigger] spec_reads_true(BoolField::Plain(b)) == b,
        forall|b: bool| #[trigger] spec_reads_true(BoolField::Optional(Some(b))) == b,
        !spec_reads_true(BoolField::Optional(None)),
        !spec_reads_true(BoolField::Other),
        (exists|i: int| 0 <= i < fields.len() && spec_reads_true(#[trigger] fields[i]))
            <==> (exists|i: int| 0 <= i < fields.len()
                && (#[trigger] fields[i] == BoolField::Plain(true) || fields[i] == BoolField::Optional(Some(true)))),
{
    if exists|i: int| 0 <= i < fields.len() && spec_reads_true(#[trigger] fields[i]) {
        let i = choose|i: int| 0 <= i < fields.len() && spec_reads_true(#[trigger] fields[i]);
        assert(fields[i] == BoolField::Plain(true) || fields[i] == BoolField::Optional(Some(true)));
    }
    if exists|i: int| 0 <= i < fields.len()
        && (#[trigger] fields[i] == BoolField::Plain(true) || fields[i] == BoolField::Optional(Some(true))) {
        let i = choose|i: int| 0 <= i < fields.len()
            && (#[trigger] fields[i] == BoolField::Plain(true) || fields[i] == BoolField::Optional(Some(true)));
        assert(spec_reads_true(fields[i]));
    }
}

/// Toggling twice gives the field back, whenever it can be toggled.
pub proof fn lemma_toggle_twice(field: BoolField)
    ensures
        spec_toggled(field) matches Some(once) ==> spec_toggled(once) == Some(field),
        spec_toggled(field) is None <==> !(field is Plain || field matches BoolField::Optional(Some(_))),
{
}

/// Toggling flips what a field reads as: a flag becomes its negation, an
/// optional flag holding a value holds its negation, and an empty optional
/// flag or a field of another type cannot be toggled.
pub proof fn lemma_toggle_flips(b: bool, field: BoolField)
    ensures
        spec_toggled(BoolField::Plain(b)) == Some(BoolField::Plain(!b)),
        spec_toggled(BoolField::Optional(Some(b))) == Some(BoolField::Optional(Some(!b))),
        spec_toggled(BoolField::Optional(None)) is None,
        spec_toggled(BoolField::Other) is None,
        spec_toggled(field) matches Some(g) ==> spec_reads_true(g) != spec_reads_true(field),
{
}

} // verus!
