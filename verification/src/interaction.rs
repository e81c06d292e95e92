//! Who receives an interaction.
use crate::entity_index::{lookup_entities, without_entity, other_than, TargetnameEntityIndex};
use crate::interactables::{spec_hover_text, InteractableEntity};
use vstd::prelude::*;
use vstd::string::StringExecFns;

verus! {

/// The entities that receive an interaction with `entity`: the entity itself,
/// then every entity registered under its relay targetname other than itself,
/// in registration order.
pub open spec fn spec_interaction_targets(model: crate::entity_index::IndexModel, entity: u64, relay: Option<Seq<char>>) -> Seq<u64> {
    match relay {
        Some(r) => seq![entity] + without_entity(lookup_entities(model, r), entity),
        None => seq![entity],
    }
}

/// The characters of an optional borrowed text.
pub open spec fn relay_view(relay: Option<&str>) -> Option<Seq<char>> {
    match relay {
        Some(r) => Some(r@),
        None => None,
    }
}

/// The entities to send the interaction event to, when the player interacts
/// with `entity` whose interactable relays to `relay`; relayed entities equal
/// to `entity` are skipped so that it is not triggered twice.
pub fn interaction_targets(index: &TargetnameEntityIndex, entity: u64, relay: Option<&str>) -> (r: Vec<u64>)
    ensures
        r@ == spec_interaction_targets(index@, entity, relay_view(relay)),
        r@.len() >= 1 && r@[0] == entity,
        relay is None ==> r@.len() == 1,
        relay matches Some(n) ==> r@.drop_first() == lookup_entities(index@, n@).filter(|e: u64| e != entity),
        relay matches Some(n) ==> forall|x: u64|
            lookup_entities(index@, n@).contains(x) && x != entity ==> #[trigger] r@.drop_first().contains(x),
{
    proof {
        if let Some(n) = relay {
            lemma_relay_reaches_every_other(index@, entity, n@);
        }
    }
    let mut r: Vec<u64> = Vec::new();
    r.push(entity);
    match relay {
        None => r,
        Some(name) => {
            let related = index.get_entity_by_targetname(name);
            let mut i: usize = 0;
            while i < related.len()
                invariant
                    i <= related@.len(),
                    related@ == lookup_entities(index@, name@),
                    r@ == seq![entity] + without_entity(related@.take(i as int), entity),
                decreases related.len() - i,
            {
                proof {
                    assert(related@.take(i + 1) == related@.take(i as int).push(related@[i as int]));
                    related@.take(i as int).lemma_filter_push(related@[i as int], other_than(entity));
                }
                if related[i] != entity {
                    r.push(related[i]);
                }
                i = i + 1;
            }
            proof {
                assert(related@.take(i as int) == related@);
            }
            r
        },
    }
}

/// Relaying is complete: an interaction first reaches the interacted entity;
/// without a relay it reaches nothing else, and with one it then reaches every
/// entity registered under the relay targetname other than the interacted one,
/// each in registration order and no other entity.
pub proof fn lemma_relay_reaches_every_other(model: crate::entity_index::IndexModel, entity: u64, relay: Seq<char>)
    ensures
        spec_interaction_targets(model, entity, None) == seq![entity],
        spec_interaction_targets(model, entity, Some(relay)).len() >= 1,
        spec_interaction_targets(model, entity, Some(relay))[0] == entity,
        spec_interaction_targets(model, entity, Some(relay)).drop_first()
            == lookup_entities(model, relay).filter(|e: u64| e != entity),
        forall|x: u64| lookup_entities(model, relay).contains(x) && x != entity
            ==> #[trigger] spec_interaction_targets(model, entity, Some(relay)).drop_first().contains(x),
{
    let list = lookup_entities(model, relay);
    assert(other_than(entity) =~= (|e: u64| e != entity));
    assert(spec_interaction_targets(model, entity, Some(relay)).drop_first() == without_entity(list, entity));
    assert forall|x: u64| list.contains(x) && x != entity
        implies #[trigger] spec_interaction_targets(model, entity, Some(relay)).drop_first().contains(x) by {
        let k = choose|k: int| 0 <= k < list.len() && list[k] == x;
        list.lemma_filter_contains(other_than(entity), k);
    }
}

/// An interaction reaches the interacted entity first and only once: no
/// relayed entity is the interacted entity itself, and every relayed entity is
/// registered under the relay targetname.
pub proof fn lemma_interaction_reaches_entity_once(model: crate::entity_index::IndexModel, entity: u64, relay: Option<Seq<char>>)
    ensures
        spec_interaction_targets(model, entity, relay)[0] == entity,
        !spec_interaction_targets(model, entity, relay).drop_first().contains(entity),
        relay matches Some(r) ==> forall|i: int| 1 <= i < spec_interaction_targets(model, entity, relay).len()
            ==> lookup_entities(model, r).contains(#[trigger] spec_interaction_targets(model, entity, relay)[i]),
{
    if let Some(r) = relay {
        let list = lookup_entities(model, r);
        let tail = without_entity(list, entity);
        assert(spec_interaction_targets(model, entity, relay).drop_first() == tail);
        if tail.contains(entity) {
            let k = choose|k: int| 0 <= k < tail.len() && tail[k] == entity;
            list.lemma_filter_pred(other_than(entity), k);
        }
        assert forall|i: int| 1 <= i < spec_interaction_targets(model, entity, relay).len() implies
            list.contains(#[trigger] spec_interaction_targets(model, entity, relay)[i]) by {
            assert(spec_interaction_targets(model, entity, relay)[i] == tail[i - 1]);
            assert(tail.contains(tail[i - 1]));
            list.lemma_filter_contains_rev(other_than(entity), tail[i - 1]);
        }
    } else {
        assert(spec_interaction_targets(model, entity, relay).drop_first() =~= Seq::<u64>::empty());
    }
}

/// Sent when the entity, given by its bits, is interacted with.
#[derive(Debug, Clone, Copy, PartialEq, Eq, Structural)]
pub struct InteractEvent(pub u64);

/// The entity that the player can interact with now, if any.
pub struct AvailableInteraction {
    pub target_entity: Option<u64>,
}

impl Default for AvailableInteraction {
    /// Nothing to interact with.
    fn default() -> (r: Self)
        ensures
            r.target_entity is None,
    {
        AvailableInteraction { target_entity: None }
    }
}

/// The entity offered for interaction after a look ray: the body that the ray
/// hit, when that body has an active interactable; otherwise none.
pub fn offered_interaction(hit_body: Option<u64>, body_is_active_interactable: bool) -> (r: Option<u64>)
    ensures
        r == (if body_is_active_interactable { hit_body } else { None }),
{
    if body_is_active_interactable {
        hit_body
    } else {
        None
    }
}

/// The interaction hint shown on screen: nothing when nothing is offered;
/// "Click: ???" when the offered entity has no interactable; otherwise
/// "Click:" followed by its hover text, or nothing when it has none.
pub open spec fn spec_hint_text(offered: bool, interactable: Option<&InteractableEntity>) -> Seq<char> {
    if !offered {
        Seq::empty()
    } else {
        match interactable {
            None => "Click: ???"@,
            Some(i) => match spec_hover_text(i@) {
                None => Seq::empty(),
                Some(text) => "Click:"@ + text,
            },
        }
    }
}

/// The interaction hint for the offered entity, if any, given its interactable
/// when it has one.
pub fn interaction_hint_text(target_entity: Option<u64>, interactable: Option<&InteractableEntity>) -> (r: String)
    ensures
        r@ == spec_hint_text(target_entity is Some, interactable),
{
    match target_entity {
        None => String::new(),
        Some(_) => match interactable {
            None => String::from_str("Click: ???"),
            Some(i) => match i.get_hover_text() {
                None => String::new(),
                Some(text) => {
                    let mut hint = String::from_str("Click:");
                    hint.append(text);
                    hint
                },
            },
        },
    }
}

/// The hint: nothing when nothing is offered; "Click: ???" for an offered
/// entity without an interactable; "Click:" followed by the hover text for an
/// offered interactable that has one, and nothing when it has none.
pub proof fn lemma_hint_cases(offered: bool, interactable: Option<&InteractableEntity>)
    ensures
        !offered ==> spec_hint_text(offered, interactable) == Seq::<char>::empty(),
        (offered && interactable is None) ==> spec_hint_text(offered, interactable) == "Click: ???"@,
        offered ==> (interactable matches Some(i) ==> spec_hint_text(offered, interactable) == match spec_hover_text(i@) {
            Some(t) => "Click:"@ + t,
            None => Seq::<char>::empty(),
        }),
{
}

} // verus!
