//! The targetname index: looks up entities by the authored `targetname` and
//! the other way round.
use bevy::platform::collections::HashMap;
use bevy::platform::hash::FixedHasher;
use vstd::prelude::*;

verus! {

#[verifier::external_type_specification]
#[verifier::external_body]
pub struct ExFixedHasher(FixedHasher);

#[verifier::external_type_specification]
#[verifier::external_body]
#[verifier::reject_recursive_types(K)]
#[verifier::reject_recursive_types(V)]
#[verifier::reject_recursive_types(S)]
pub struct ExHashMap<K, V, S>(HashMap<K, V, S>);

/// What a map from targetnames to lists of entities holds.
pub uninterp spec fn entities_by_name(m: HashMap<String, Vec<u64>>) -> Map<Seq<char>, Seq<u64>>;

/// What a map from entities to their targetname holds.
pub uninterp spec fn name_by_entity(m: HashMap<u64, String>) -> Map<u64, Seq<char>>;

/// The contents of an empty map from names to entity lists.
pub open spec fn empty_name_map() -> Map<Seq<char>, Seq<u64>> {
    Map::empty()
}

/// The contents of an empty map from entities to names.
pub open spec fn empty_entity_map() -> Map<u64, Seq<char>> {
    Map::empty()
}

/// Calls `HashMap::new` for a map from names to entity lists: the new map is empty.
#[verifier::external_body]
fn new_name_map() -> (m: HashMap<String, Vec<u64>>)
    ensures
        entities_by_name(m) == empty_name_map(),
{
    HashMap::new()
}

/// Calls `HashMap::new` for a map from entities to names: the new map is empty.
#[verifier::external_body]
fn new_entity_map() -> (m: HashMap<u64, String>)
    ensures
        name_by_entity(m) == empty_entity_map(),
{
    HashMap::new()
}

/// Calls `HashMap::get` with a `str` key: returns the list stored under a key
/// with the same characters, if there is one.
#[verifier::external_body]
fn name_map_get<'a>(m: &'a HashMap<String, Vec<u64>>, name: &str) -> (r: Option<&'a Vec<u64>>)
    ensures
        r is Some <==> entities_by_name(*m).contains_key(name@),
        r matches Some(v) ==> v@ == entities_by_name(*m)[name@],
{
    m.get(name)
}

/// Calls `HashMap::insert`: the key now maps to the given list, every other key
/// is unchanged; the list that was stored under the key before is returned.
#[verifier::external_body]
fn name_map_insert(m: &mut HashMap<String, Vec<u64>>, name: String, list: Vec<u64>) -> (r: Option<Vec<u64>>)
    ensures
        entities_by_name(*final(m)) == entities_by_name(*old(m)).insert(name@, list@),
        r is Some <==> entities_by_name(*old(m)).contains_key(name@),
        r matches Some(v) ==> v@ == entities_by_name(*old(m))[name@],
{
    m.insert(name, list)
}

/// Calls `HashMap::remove` with a `str` key: the key is gone, every other key is
/// unchanged, and the list that was stored under it is returned.
#[verifier::external_body]
fn name_map_remove(m: &mut HashMap<String, Vec<u64>>, name: &str) -> (r: Option<Vec<u64>>)
    ensures
        entities_by_name(*final(m)) == entities_by_name(*old(m)).remove(name@),
        r is Some <==> entities_by_name(*old(m)).contains_key(name@),
        r matches Some(v) ==> v@ == entities_by_name(*old(m))[name@],
{
    m.remove(name)
}

/// Calls `HashMap::keys` and copies the keys into a vector: each key of the map
/// occurs exactly once, in the order in which the map walks them (which is not
/// stated).
#[verifier::external_body]
fn name_map_keys(m: &HashMap<String, Vec<u64>>) -> (r: Vec<String>)
    ensures
        forall|j: int| 0 <= j < r@.len() ==> entities_by_name(*m).contains_key(#[trigger] r@[j]@),
        forall|n: Seq<char>| #[trigger] entities_by_name(*m).contains_key(n) ==> exists|j: int| 0 <= j < r@.len() && #[trigger] r@[j]@ == n,
        forall|j: int, k: int| 0 <= j < r@.len() && 0 <= k < r@.len() && j != k ==> #[trigger] r@[j]@ != #[trigger] r@[k]@,
{
    m.keys().cloned().collect()
}

/// Calls `HashMap::clear`: the map is empty afterwards.
#[verifier::external_body]
fn name_map_clear(m: &mut HashMap<String, Vec<u64>>)
    ensures
        entities_by_name(*final(m)) == empty_name_map(),
{
    m.clear()
}

/// Calls `HashMap::get`: returns the name stored for the entity, if there is one.
#[verifier::external_body]
fn entity_map_get<'a>(m: &'a HashMap<u64, String>, entity: u64) -> (r: Option<&'a String>)
    ensures
        r is Some <==> name_by_entity(*m).contains_key(entity),
        r matches Some(s) ==> s@ == name_by_entity(*m)[entity],
{
    m.get(&entity)
}

/// Calls `HashMap::insert`: the entity now maps to the given name, every other
/// entity is unchanged.
#[verifier::external_body]
fn entity_map_insert(m: &mut HashMap<u64, String>, entity: u64, name: String) -> (r: Option<String>)
    ensures
        name_by_entity(*final(m)) == name_by_entity(*old(m)).insert(entity, name@),
        r is Some <==> name_by_entity(*old(m)).contains_key(entity),
        r matches Some(s) ==> s@ == name_by_entity(*old(m))[entity],
{
    m.insert(entity, name)
}

/// Calls `HashMap::remove`: the entity is gone, every other entity is unchanged,
/// and the name that was stored for it is returned.
#[verifier::external_body]
fn entity_map_remove(m: &mut HashMap<u64, String>, entity: u64) -> (r: Option<String>)
    ensures
        name_by_entity(*final(m)) == name_by_entity(*old(m)).remove(entity),
        r is Some <==> name_by_entity(*old(m)).contains_key(entity),
        r matches Some(s) ==> s@ == name_by_entity(*old(m))[entity],
{
    m.remove(&entity)
}

/// Calls `HashMap::clear`: the map is empty afterwards.
#[verifier::external_body]
fn entity_map_clear(m: &mut HashMap<u64, String>)
    ensures
        name_by_entity(*final(m)) == empty_entity_map(),
{
    m.clear()
}

/// The contents of a targetname index: the entities listed under each
/// targetname, in the order they were registered, and the targetname recorded
/// for each entity.
pub struct IndexModel {
    pub entities: Map<Seq<char>, Seq<u64>>,
    pub names: Map<u64, Seq<char>>,
}

/// The entities listed under a targetname; no entity for a name that was never used.
pub open spec fn lookup_entities(model: IndexModel, name: Seq<char>) -> Seq<u64> {
    if model.entities.contains_key(name) {
        model.entities[name]
    } else {
        Seq::empty()
    }
}

/// The targetname recorded for an entity, if any.
pub open spec fn lookup_name(model: IndexModel, entity: u64) -> Option<Seq<char>> {
    if model.names.contains_key(entity) {
        Some(model.names[entity])
    } else {
        None
    }
}

/// Registering an entity under a targetname: an empty targetname changes
/// nothing; otherwise the entity is appended to the list of that name, and the
/// name becomes the one recorded for the entity. Other lists stay as they are.
pub open spec fn registered(model: IndexModel, entity: u64, name: Seq<char>) -> IndexModel {
    if name.len() == 0 {
        model
    } else {
        IndexModel {
            entities: model.entities.insert(name, lookup_entities(model, name).push(entity)),
            names: model.names.insert(entity, name),
        }
    }
}

/// A consistent index: the targetname recorded for an entity lists that entity.
pub open spec fn index_wf(model: IndexModel) -> bool {
    forall|e: u64| #[trigger] model.names.contains_key(e) ==> lookup_entities(model, model.names[e]).contains(e)
}

/// The entities of a list other than `entity`, in their order.
pub open spec fn without_entity(list: Seq<u64>, entity: u64) -> Seq<u64> {
    list.filter(other_than(entity))
}

/// Holds of every entity but `entity`.
pub open spec fn other_than(entity: u64) -> spec_fn(u64) -> bool {
    |e: u64| e != entity
}

/// Every list with `entity` taken out.
pub open spec fn purged(entities: Map<Seq<char>, Seq<u64>>, entity: u64) -> Map<Seq<char>, Seq<u64>> {
    Map::new(|n: Seq<char>| entities.contains_key(n), |n: Seq<char>| without_entity(entities[n], entity))
}

/// Removing an entity from the index: it is taken out of every list, and the
/// targetname recorded for it, if any, is dropped.
pub open spec fn removed(model: IndexModel, entity: u64) -> IndexModel {
    IndexModel { entities: purged(model.entities, entity), names: model.names.remove(entity) }
}

/// What the two maps of an index hold.
pub open spec fn model_of(by_name: HashMap<String, Vec<u64>>, by_entity: HashMap<u64, String>) -> IndexModel {
    IndexModel { entities: entities_by_name(by_name), names: name_by_entity(by_entity) }
}

/// Acceleration map for looking up entities by their `targetname`, and the
/// `targetname` of an entity. Entities are identified by their bits.
pub struct TargetnameEntityIndex {
    targetname_to_entity: HashMap<String, Vec<u64>>,
    entity_to_targetname: HashMap<u64, String>,
}

impl View for TargetnameEntityIndex {
    type V = IndexModel;

    closed spec fn view(&self) -> IndexModel {
        model_of(self.targetname_to_entity, self.entity_to_targetname)
    }
}

impl TargetnameEntityIndex {
    /// Every index is consistent.
    #[verifier::type_invariant]
    closed spec fn consistent(self) -> bool {
        index_wf(self@)
    }
}

/// Whether `e` occurs in `list`.
pub(crate) fn contains_entity(list: &Vec<u64>, e: u64) -> (r: bool)
    ensures
        r == list@.contains(e),
{
    let mut i: usize = 0;
    while i < list.len()
        invariant
            i <= list.len(),
            forall|j: int| 0 <= j < i ==> list@[j] != e,
        decreases list.len() - i,
    {
        if list[i] == e {
            assert(list@[i as int] == e);
            return true;
        }
        i = i + 1;
    }
    false
}

/// The entities of `list` other than `entity`, in their order.
fn retain_other(list: &Vec<u64>, entity: u64) -> (r: Vec<u64>)
    ensures
        r@ == without_entity(list@, entity),
{
    let mut r: Vec<u64> = Vec::new();
    let mut i: usize = 0;
    while i < list.len()
        invariant
            i <= list.len(),
            r@ == without_entity(list@.take(i as int), entity),
        decreases list.len() - i,
    {
        proof {
            assert(list@.take(i + 1) == list@.take(i as int).push(list@[i as int]));
            list@.take(i as int).lemma_filter_push(list@[i as int], other_than(entity));
        }
        if list[i] != entity {
            r.push(list[i]);
        }
        i = i + 1;
    }
    proof {
        assert(list@.take(i as int) == list@);
    }
    r
}

/// Takes `entity` out of the two maps: its record is dropped and it leaves
/// every list.
fn remove_from_maps(by_name: &mut HashMap<String, Vec<u64>>, by_entity: &mut HashMap<u64, String>, entity: u64)
    ensures
        model_of(*final(by_name), *final(by_entity)) == removed(model_of(*old(by_name), *old(by_entity)), entity),
{
    let _ = entity_map_remove(by_entity, entity);
    let ghost start = entities_by_name(*by_name);
    let keys = name_map_keys(by_name);
    let mut i: usize = 0;
    while i < keys.len()
        invariant
            i <= keys@.len(),
            start == entities_by_name(*old(by_name)),
            name_by_entity(*by_entity) == name_by_entity(*old(by_entity)).remove(entity),
            forall|j: int| 0 <= j < keys@.len() ==> start.contains_key(#[trigger] keys@[j]@),
            forall|n: Seq<char>| #[trigger] start.contains_key(n) ==> exists|j: int| 0 <= j < keys@.len() && #[trigger] keys@[j]@ == n,
            forall|j: int, k: int| 0 <= j < keys@.len() && 0 <= k < keys@.len() && j != k ==> #[trigger] keys@[j]@ != #[trigger] keys@[k]@,
            entities_by_name(*by_name).dom() == start.dom(),
            forall|j: int| 0 <= j < i ==> entities_by_name(*by_name)[#[trigger] keys@[j]@] == without_entity(start[keys@[j]@], entity),
            forall|n: Seq<char>| start.contains_key(n) && (forall|j: int| 0 <= j < i ==> keys@[j]@ != n)
                ==> #[trigger] entities_by_name(*by_name)[n] == start[n],
        decreases keys.len() - i,
    {
        let key = &keys[i];
        proof {
            assert(start.contains_key(keys@[i as int]@));
        }
        if let Some(list) = name_map_remove(by_name, key.as_str()) {
            let kept = retain_other(&list, entity);
            let _ = name_map_insert(by_name, key.clone(), kept);
        }
        proof {
            assert(entities_by_name(*by_name).dom() =~= start.dom());
            assert forall|j: int| 0 <= j < i + 1 implies entities_by_name(*by_name)[#[trigger] keys@[j]@] == without_entity(start[keys@[j]@], entity) by {
                if j < i {
                    assert(keys@[j]@ != keys@[i as int]@);
                }
            }
        }
        i = i + 1;
    }
    proof {
        let after = entities_by_name(*by_name);
        assert forall|n: Seq<char>| after.contains_key(n) implies after[n] == without_entity(start[n], entity) by {
            let j = choose|j: int| 0 <= j < keys@.len() && #[trigger] keys@[j]@ == n;
        }
        assert(after =~= purged(start, entity));
    }
}

impl TargetnameEntityIndex {
    /// An empty index.
    pub fn new() -> (index: Self)
        ensures
            index@.entities == empty_name_map(),
            index@.names == empty_entity_map(),
            index_wf(index@),
    {
        TargetnameEntityIndex {
            targetname_to_entity: new_name_map(),
            entity_to_targetname: new_entity_map(),
        }
    }

    /// The entities registered under `targetname`, in registration order; empty
    /// when there are none.
    pub fn get_entity_by_targetname(&self, targetname: &str) -> (r: &[u64])
        ensures
            r@ == lookup_entities(self@, targetname@),
    {
        match name_map_get(&self.targetname_to_entity, targetname) {
            Some(v) => v.as_slice(),
            None => &[],
        }
    }

    /// The targetname recorded for `entity`, if any.
    pub fn get_targetname_of_entity(&self, entity: u64) -> (r: Option<&str>)
        ensures
            r is Some <==> lookup_name(self@, entity) is Some,
            r matches Some(s) ==> lookup_name(self@, entity) == Some(s@),
    {
        match entity_map_get(&self.entity_to_targetname, entity) {
            Some(s) => Some(s.as_str()),
            None => None,
        }
    }

    /// Registers an entity with a given targetname; an empty targetname is
    /// skipped. The entity is appended to the list of the targetname and the
    /// targetname is recorded for it; other lists are left as they are.
    pub fn register_entity(&mut self, entity: u64, targetname: &str)
        ensures
            final(self)@ == registered(old(self)@, entity, targetname@),
            index_wf(final(self)@),
    {
        proof {
            use_type_invariant(&*self);
        }
        if targetname.is_empty() {
            return;
        }
        let mut taken = TargetnameEntityIndex::new();
        std::mem::swap(self, &mut taken);
        proof {
            use_type_invariant(&taken);
        }
        let TargetnameEntityIndex { targetname_to_entity: mut by_name, entity_to_targetname: mut by_entity } = taken;
        let mut list = match name_map_remove(&mut by_name, targetname) {
            Some(v) => v,
            None => Vec::new(),
        };
        list.push(entity);
        let _ = name_map_insert(&mut by_name, targetname.to_owned(), list);
        let _ = entity_map_insert(&mut by_entity, entity, targetname.to_owned());
        proof {
            assert(entities_by_name(by_name) =~= registered(old(self)@, entity, targetname@).entities);
            lemma_registered_keeps_consistency(old(self)@, entity, targetname@);
        }
        *self = TargetnameEntityIndex { targetname_to_entity: by_name, entity_to_targetname: by_entity };
    }

    /// Removes an entity from the index: no targetname is recorded for it
    /// afterwards and it is listed under no targetname.
    pub fn remove_entity(&mut self, entity: u64)
        ensures
            final(self)@ == removed(old(self)@, entity),
            index_wf(final(self)@),
            lookup_name(final(self)@, entity) is None,
            forall|n: Seq<char>| !(#[trigger] lookup_entities(final(self)@, n)).contains(entity),
    {
        proof {
            use_type_invariant(&*self);
        }
        let mut taken = TargetnameEntityIndex::new();
        std::mem::swap(self, &mut taken);
        proof {
            use_type_invariant(&taken);
        }
        let TargetnameEntityIndex { targetname_to_entity: mut by_name, entity_to_targetname: mut by_entity } = taken;
        remove_from_maps(&mut by_name, &mut by_entity, entity);
        proof {
            lemma_remove_then_lookup(old(self)@, entity);
        }
        *self = TargetnameEntityIndex { targetname_to_entity: by_name, entity_to_targetname: by_entity };
    }

    /// Forgets every entity and every targetname, keeping the maps' storage.
    pub fn clear(&mut self)
        ensures
            final(self)@.entities == empty_name_map(),
            final(self)@.names == empty_entity_map(),
    {
        let mut taken = TargetnameEntityIndex::new();
        std::mem::swap(self, &mut taken);
        let TargetnameEntityIndex { targetname_to_entity: mut by_name, entity_to_targetname: mut by_entity } = taken;
        entity_map_clear(&mut by_entity);
        name_map_clear(&mut by_name);
        *self = TargetnameEntityIndex { targetname_to_entity: by_name, entity_to_targetname: by_entity };
    }
}

/// The targetname of an entity: like a name, but authored, and entities can be
/// looked up by it through the [`TargetnameEntityIndex`].
pub struct TargetName {
    targetname: String,
}

impl TargetName {
    /// The targetname that this holds.
    pub closed spec fn spec_targetname(&self) -> Seq<char> {
        self.targetname@
    }

    /// A targetname with the given text.
    pub fn new(targetname: String) -> (r: Self)
        ensures
            r.spec_targetname() == targetname@,
    {
        TargetName { targetname }
    }

    /// The text of the targetname.
    pub fn as_str(&self) -> (r: &str)
        ensures
            r@ == self.spec_targetname(),
    {
        self.targetname.as_str()
    }
}

impl Default for TargetName {
    /// The empty targetname, which the index skips.
    fn default() -> (r: Self)
        ensures
            r.spec_targetname() == Seq::<char>::empty(),
    {
        TargetName { targetname: String::new() }
    }
}

/// A list with no occurrence of `entity` is unchanged by taking `entity` out.
proof fn lemma_without_absent(list: Seq<u64>, entity: u64)
    requires
        !list.contains(entity),
    ensures
        without_entity(list, entity) == list,
    decreases list.len(),
{
    if list.len() > 0 {
        let init = list.drop_last();
        assert(!init.contains(entity)) by {
            if init.contains(entity) {
                let k = choose|k: int| 0 <= k < init.len() && init[k] == entity;
                assert(list[k] == entity);
            }
        }
        lemma_without_absent(init, entity);
        init.lemma_filter_push(list.last(), other_than(entity));
        assert(init.push(list.last()) == list);
    }
}

/// Taking `entity` out of a list keeps exactly the other entities of the list.
proof fn lemma_without_contains(list: Seq<u64>, entity: u64, x: u64)
    ensures
        without_entity(list, entity).contains(x) <==> (list.contains(x) && x != entity),
{
    if without_entity(list, entity).contains(x) {
        list.lemma_filter_contains_rev(other_than(entity), x);
        let k = choose|k: int| 0 <= k < without_entity(list, entity).len() && without_entity(list, entity)[k] == x;
        list.lemma_filter_pred(other_than(entity), k);
    }
    if list.contains(x) && x != entity {
        let k = choose|k: int| 0 <= k < list.len() && list[k] == x;
        list.lemma_filter_contains(other_than(entity), k);
    }
}

/// After an entity is removed, no targetname is recorded for it, it is listed
/// under no targetname, every other entity keeps its record, and every list
/// keeps its other entities in order. Removing keeps an index consistent.
pub proof fn lemma_remove_then_lookup(model: IndexModel, entity: u64)
    ensures
        lookup_name(removed(model, entity), entity) is None,
        forall|n: Seq<char>| !(#[trigger] lookup_entities(removed(model, entity), n)).contains(entity),
        forall|e: u64| e != entity ==> lookup_name(removed(model, entity), e) == lookup_name(model, e),
        forall|n: Seq<char>| #[trigger] lookup_entities(removed(model, entity), n) == without_entity(lookup_entities(model, n), entity),
        index_wf(model) ==> index_wf(removed(model, entity)),
{
    let after = removed(model, entity);
    assert forall|n: Seq<char>| #[trigger] lookup_entities(after, n) == without_entity(lookup_entities(model, n), entity) by {
        if !model.entities.contains_key(n) {
            lemma_without_absent(Seq::<u64>::empty(), entity);
        }
    }
    assert forall|n: Seq<char>| !(#[trigger] lookup_entities(after, n)).contains(entity) by {
        lemma_without_contains(lookup_entities(model, n), entity, entity);
    }
    if index_wf(model) {
        assert forall|e: u64| #[trigger] after.names.contains_key(e) implies lookup_entities(after, after.names[e]).contains(e) by {
            let n = model.names[e];
            assert(lookup_entities(model, n).contains(e));
            assert(lookup_entities(after, n) == without_entity(lookup_entities(model, n), entity));
            lemma_without_contains(lookup_entities(model, n), entity, e);
        }
    }
}

/// Registering keeps a consistent index consistent.
pub proof fn lemma_registered_keeps_consistency(model: IndexModel, entity: u64, name: Seq<char>)
    requires
        index_wf(model),
    ensures
        index_wf(registered(model, entity, name)),
{
    if name.len() > 0 {
        let after = registered(model, entity, name);
        assert forall|e: u64| #[trigger] after.names.contains_key(e) implies lookup_entities(after, after.names[e]).contains(e) by {
            if e == entity {
                assert(lookup_entities(after, name) == lookup_entities(model, name).push(entity));
                assert(lookup_entities(after, name)[lookup_entities(model, name).len() as int] == entity);
            } else {
                let n = model.names[e];
                assert(lookup_entities(model, n).contains(e));
                if n == name {
                    let k = choose|k: int| 0 <= k < lookup_entities(model, n).len() && lookup_entities(model, n)[k] == e;
                    assert(lookup_entities(after, n)[k] == e);
                }
            }
        }
    }
}

/// Read after write: once an entity is registered under a non-empty targetname,
/// that targetname is the one recorded for it and the entity is appended to its
/// list; every other list and every other entity's record read as before.
pub proof fn lemma_register_then_lookup(model: IndexModel, entity: u64, name: Seq<char>)
    requires
        name.len() > 0,
    ensures
        lookup_name(registered(model, entity, name), entity) == Some(name),
        lookup_entities(registered(model, entity, name), name) == lookup_entities(model, name).push(entity),
        forall|other: Seq<char>| other != name ==> lookup_entities(registered(model, entity, name), other) == lookup_entities(model, other),
        forall|e: u64| e != entity ==> lookup_name(registered(model, entity, name), e) == lookup_name(model, e),
{
}

/// Registering under the empty targetname changes nothing.
pub proof fn lemma_register_empty_name(model: IndexModel, entity: u64)
    ensures
        registered(model, entity, Seq::empty()) == model,
{
}

/// Removing undoes registering: when an entity that the index neither records
/// nor lists is registered under a non-empty targetname and then removed, every
/// lookup, by targetname or by entity, reads as it did before.
pub proof fn lemma_remove_undoes_register(model: IndexModel, entity: u64, name: Seq<char>)
    requires
        name.len() > 0,
        lookup_name(model, entity) is None,
        forall|n: Seq<char>| !(#[trigger] lookup_entities(model, n)).contains(entity),
    ensures
        forall|n: Seq<char>| lookup_entities(removed(registered(model, entity, name), entity), n) == lookup_entities(model, n),
        forall|e: u64| lookup_name(removed(registered(model, entity, name), entity), e) == lookup_name(model, e),
{
    let reg = registered(model, entity, name);
    let after = removed(reg, entity);
    lemma_remove_then_lookup(reg, entity);
    assert(after.names =~= model.names);
    assert forall|n: Seq<char>| lookup_entities(after, n) == lookup_entities(model, n) by {
        assert(lookup_entities(after, n) == without_entity(lookup_entities(reg, n), entity));
        let before = lookup_entities(model, n);
        assert(!before.contains(entity));
        lemma_without_absent(before, entity);
        if n == name {
            before.lemma_filter_push(entity, other_than(entity));
        }
    }
}

/// A cleared index lists no entity under any targetname and records no
/// targetname for any entity.
pub proof fn lemma_cleared_lookups(model: IndexModel)
    requires
        model.entities == empty_name_map(),
        model.names == empty_entity_map(),
    ensures
        forall|n: Seq<char>| lookup_entities(model, n) == Seq::<u64>::empty(),
        forall|e: u64| lookup_name(model, e) is None,
        index_wf(model),
{
}

} // verus!
