//! Props that the player can interact with, as authored in the level editor.
use vstd::prelude::*;

verus! {

/// A component for designing entities that can be interacted with.
pub struct InteractableEntity {
    /// Whether this entity can be eaten.
    pub is_edible: bool,
    /// A special line of text for interacting with it; when absent the text is
    /// inferred from being edible.
    pub interaction_text_override: Option<String>,
    /// The `targetname` of the objective, if any, that interacting completes.
    pub completes_subobjective: Option<String>,
    /// The `targetname` of the entity, if any, that also receives the
    /// interaction when this one is interacted with.
    pub interaction_relay: Option<String>,
}

/// The characters of an optional text.
pub open spec fn opt_view(s: Option<String>) -> Option<Seq<char>> {
    match s {
        Some(t) => Some(t@),
        None => None,
    }
}

/// The characters of an optional borrowed text.
pub open spec fn opt_str_view(s: Option<&str>) -> Option<Seq<char>> {
    match s {
        Some(t) => Some(t@),
        None => None,
    }
}

/// The plain contents of an interactable.
pub struct InteractableView {
    pub is_edible: bool,
    pub text_override: Option<Seq<char>>,
    pub completes_subobjective: Option<Seq<char>>,
    pub relay: Option<Seq<char>>,
}

impl View for InteractableEntity {
    type V = InteractableView;

    open spec fn view(&self) -> InteractableView {
        InteractableView {
            is_edible: self.is_edible,
            text_override: opt_view(self.interaction_text_override),
            completes_subobjective: opt_view(self.completes_subobjective),
            relay: opt_view(self.interaction_relay),
        }
    }
}

/// Whether an interactable has any value that warrants an interaction.
pub open spec fn spec_is_active(i: InteractableView) -> bool {
    i.is_edible || i.text_override is Some || i.completes_subobjective is Some || i.relay is Some
}

/// The hover text of an interactable: its override text if it has one, else
/// "Eat" for something edible, else "Interact" for something active, else none.
pub open spec fn spec_hover_text(i: InteractableView) -> Option<Seq<char>> {
    if i.text_override is Some {
        i.text_override
    } else if i.is_edible {
        Some("Eat"@)
    } else if spec_is_active(i) {
        Some("Interact"@)
    } else {
        None
    }
}

/// The interactable with `text` as its override, unless it already had one.
pub open spec fn with_override(i: InteractableView, text: Seq<char>) -> InteractableView {
    InteractableView {
        text_override: if i.text_override is None { Some(text) } else { i.text_override },
        ..i
    }
}

/// What the engine does with the edible marker when an interactable is inserted.
#[derive(Debug, Clone, Copy, PartialEq, Eq, Structural)]
pub enum EdibleMarkerAction {
    /// Insert the edible marker if the entity does not have it yet.
    InsertIfNew,
    /// Remove the edible marker.
    Remove,
}

/// The borrowed characters of an optional text.
fn opt_as_str(s: &Option<String>) -> (r: Option<&str>)
    ensures
        opt_str_view(r) == opt_view(*s),
{
    match s {
        Some(t) => Some(t.as_str()),
        None => None,
    }
}

impl Clone for InteractableEntity {
    fn clone(&self) -> (r: Self)
        ensures
            r@ == self@,
    {
        InteractableEntity {
            is_edible: self.is_edible,
            interaction_text_override: clone_opt(&self.interaction_text_override),
            completes_subobjective: clone_opt(&self.completes_subobjective),
            interaction_relay: clone_opt(&self.interaction_relay),
        }
    }
}

/// A copy of an optional text.
fn clone_opt(s: &Option<String>) -> (r: Option<String>)
    ensures
        opt_view(r) == opt_view(*s),
{
    match s {
        Some(t) => Some(t.clone()),
        None => None,
    }
}

impl Default for InteractableEntity {
    /// Not edible, with no override, objective or relay.
    fn default() -> (r: Self)
        ensures
            r@ == (InteractableView { is_edible: false, text_override: None, completes_subobjective: None, relay: None }),
    {
        InteractableEntity {
            is_edible: false,
            interaction_text_override: None,
            completes_subobjective: None,
            interaction_relay: None,
        }
    }
}

impl InteractableEntity {
    /// An interactable that is not edible and shows the given text.
    pub fn new_from_text(text: String) -> (r: Self)
        ensures
            r@ == (InteractableView { is_edible: false, text_override: Some(text@), completes_subobjective: None, relay: None }),
    {
        InteractableEntity {
            is_edible: false,
            interaction_text_override: Some(text),
            completes_subobjective: None,
            interaction_relay: None,
        }
    }

    /// Gets a string roughly representing the action of this entity.
    pub fn get_hover_text(&self) -> (r: Option<&str>)
        ensures
            opt_str_view(r) == spec_hover_text(self@),
    {
        if self.interaction_text_override.is_some() {
            self.get_interaction_text_override()
        } else if self.is_edible {
            Some("Eat")
        } else if self.is_active() {
            Some("Interact")
        } else {
            None
        }
    }

    /// Whether this has any non-default value that would warrant an interaction.
    pub fn is_active(&self) -> (r: bool)
        ensures
            r == spec_is_active(self@),
    {
        self.is_edible || self.interaction_text_override.is_some()
            || self.completes_subobjective.is_some() || self.interaction_relay.is_some()
    }

    /// Whether this entity can be eaten.
    pub fn get_is_edible(&self) -> (r: bool)
        ensures
            r == self.is_edible,
    {
        self.is_edible
    }

    /// The override text, if any.
    pub fn get_interaction_text_override(&self) -> (r: Option<&str>)
        ensures
            opt_str_view(r) == opt_view(self.interaction_text_override),
    {
        opt_as_str(&self.interaction_text_override)
    }

    /// The `targetname` of the objective that interacting completes, if any.
    pub fn get_completes_subobjective(&self) -> (r: Option<&str>)
        ensures
            opt_str_view(r) == opt_view(self.completes_subobjective),
    {
        opt_as_str(&self.completes_subobjective)
    }

    /// The `targetname` of the entity that also receives the interaction, if any.
    pub fn get_interaction_relay(&self) -> (r: Option<&str>)
        ensures
            opt_str_view(r) == opt_view(self.interaction_relay),
    {
        opt_as_str(&self.interaction_relay)
    }

    /// A copy of this with the given override text, if it had none before.
    pub fn add_override(&self, text: &str) -> (r: Self)
        ensures
            r@ == with_override(self@, text@),
    {
        let mut value = self.clone();
        if value.interaction_text_override.is_none() {
            value.interaction_text_override = Some(text.to_owned());
        }
        value
    }

    /// What to do with the edible marker when this is inserted on an entity:
    /// an edible prop gets it, any other loses it.
    pub fn edible_marker_action(&self) -> (r: EdibleMarkerAction)
        ensures
            r == (if self.is_edible {
                EdibleMarkerAction::InsertIfNew
            } else {
                EdibleMarkerAction::Remove
            }),
    {
        if self.is_edible {
            EdibleMarkerAction::InsertIfNew
        } else {
            EdibleMarkerAction::Remove
        }
    }
}

/// An interactable has a hover text exactly when it is active.
pub proof fn lemma_hover_text_iff_active(i: InteractableView)
    ensures
        spec_hover_text(i) is Some <==> spec_is_active(i),
{
}

/// Adding an override makes an interactable active and gives it a hover text;
/// adding one twice is the same as adding it once, and an existing override is
/// kept.
pub proof fn lemma_override_laws(i: InteractableView, text: Seq<char>)
    ensures
        spec_is_active(with_override(i, text)),
        spec_hover_text(with_override(i, text)) == with_override(i, text).text_override,
        with_override(with_override(i, text), text) == with_override(i, text),
        i.text_override is Some ==> with_override(i, text) == i,
{
}

/// The hover text: an override is shown as it is; without one, an edible prop
/// shows "Eat", any other active prop shows "Interact", and an inactive prop
/// shows nothing.
pub proof fn lemma_hover_text_cases(i: InteractableView)
    ensures
        i.text_override matches Some(t) ==> spec_hover_text(i) == Some(t),
        (i.text_override is None && i.is_edible) ==> spec_hover_text(i) == Some("Eat"@),
        (i.text_override is None && !i.is_edible && (i.completes_subobjective is Some || i.relay is Some))
            ==> spec_hover_text(i) == Some("Interact"@),
        (i.text_override is None && !i.is_edible && i.completes_subobjective is None && i.relay is None)
            ==> spec_hover_text(i) is None,
{
}

} // verus!
