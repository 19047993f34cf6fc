//! Function registry: tasks name their function by id, and the registry
//! maps ids to the functions registered under them.

use crate::error::{Result, RustyRayError};
use dashmap::DashMap;
use std::collections::hash_map::RandomState;
use vstd::prelude::*;

verus! {

/// Unique identifier for a registered function.
#[derive(Debug, Hash, Eq)]
pub struct FunctionId(pub String);

impl View for FunctionId {
    type V = Seq<char>;

    open spec fn view(&self) -> Seq<char> {
        self.0@
    }
}

impl FunctionId {
    /// Creates a function id.
    pub fn new(id: &str) -> (r: Self)
        ensures
            r@ == id@,
    {
        FunctionId(id.to_owned())
    }

    /// The id as text (how it is displayed).
    pub fn as_str(&self) -> (r: &str)
        ensures
            r@ == self@,
    {
        self.0.as_str()
    }
}

impl From<String> for FunctionId {
    /// The id with the given text.
    fn from(id: String) -> (r: Self) {
        FunctionId(id)
    }
}

impl vstd::std_specs::convert::FromSpecImpl<String> for FunctionId {
    open spec fn obeys_from_spec() -> bool {
        true
    }

    open spec fn from_spec(v: String) -> Self {
        FunctionId(v)
    }
}

impl<'a> From<&'a str> for FunctionId {
    /// The id with the given text, as `FunctionId::new` makes it.
    fn from(id: &'a str) -> (r: Self)
        ensures
            r@ == id@,
    {
        FunctionId::new(id)
    }
}

/// A text gives an id whose text is the same (see `from`); the `String`
/// that the id owns is a fresh copy, so no single value is named here.
impl<'a> vstd::std_specs::convert::FromSpecImpl<&'a str> for FunctionId {
    open spec fn obeys_from_spec() -> bool {
        false
    }

    open spec fn from_spec(v: &'a str) -> Self {
        choose|f: FunctionId| f@ == v@
    }
}

impl Clone for FunctionId {
    fn clone(&self) -> (r: Self)
        ensures
            r == *self,
    {
        FunctionId(self.0.clone())
    }
}

impl PartialEq for FunctionId {
    fn eq(&self, other: &Self) -> (r: bool) {
        self.0 == other.0
    }
}

impl vstd::std_specs::cmp::PartialEqSpecImpl for FunctionId {
    open spec fn obeys_eq_spec() -> bool {
        true
    }

    open spec fn eq_spec(&self, other: &Self) -> bool {
        self@ == other@
    }
}

/// The slot of each function id that a map holds, keyed by the id's text.
pub uninterp spec fn slot_entries(m: DashMap<FunctionId, usize, RandomState>) -> Map<Seq<char>, usize>;

/// Makes an empty map.
///
/// Calls `DashMap::new`.
#[verifier::external_body]
fn slots_new() -> (map: DashMap<FunctionId, usize, RandomState>)
    ensures
        slot_entries(map) == no_slots(),
{
    DashMap::new()
}

/// The empty slot map.
pub open spec fn no_slots() -> Map<Seq<char>, usize> {
    Map::empty()
}

/// Inserts an entry, replacing the one with an equal id.
///
/// Calls `DashMap::insert`. Ids are equal exactly when their texts are.
#[verifier::external_body]
fn slots_insert(map: &mut DashMap<FunctionId, usize, RandomState>, id: FunctionId, slot: usize)
    ensures
        slot_entries(*final(map)) == slot_entries(*old(map)).insert(id@, slot),
{
    map.insert(id, slot);
}

/// The slot of an id, if it is present.
///
/// Calls `DashMap::get` and copies the slot out.
#[verifier::external_body]
fn slots_get(map: &DashMap<FunctionId, usize, RandomState>, id: &FunctionId) -> (r: Option<usize>)
    ensures
        r == (if slot_entries(*map).contains_key(id@) {
            Some(slot_entries(*map)[id@])
        } else {
            None::<usize>
        }),
{
    map.get(id).map(|entry| *entry.value())
}

/// Whether an id is present.
///
/// Calls `DashMap::contains_key`.
#[verifier::external_body]
fn slots_contains(map: &DashMap<FunctionId, usize, RandomState>, id: &FunctionId) -> (r: bool)
    ensures
        r == slot_entries(*map).contains_key(id@),
{
    map.contains_key(id)
}

/// The number of entries.
///
/// Calls `DashMap::len`, the total number of key-value pairs in the map.
#[verifier::external_body]
fn slots_len(map: &DashMap<FunctionId, usize, RandomState>) -> (n: usize)
    ensures
        n == slot_entries(*map).dom().len(),
{
    map.len()
}

/// Removes every entry.
///
/// Calls `DashMap::clear`.
#[verifier::external_body]
fn slots_clear(map: &mut DashMap<FunctionId, usize, RandomState>)
    ensures
        slot_entries(*final(map)) == no_slots(),
{
    map.clear();
}

/// Function registry: ids of registered functions, each mapped to the slot
/// of `functions` that holds its function.
pub struct FunctionRegistry<F> {
    slots: DashMap<FunctionId, usize, RandomState>,
    functions: Vec<F>,
}

impl<F> FunctionRegistry<F> {
    /// The registered functions, by id.
    pub closed spec fn registered(&self) -> Map<Seq<char>, F> {
        Map::new(
            |k: Seq<char>| slot_entries(self.slots).contains_key(k),
            |k: Seq<char>| self.functions@[slot_entries(self.slots)[k] as int],
        )
    }

    /// The registry's invariant: every slot holds a function.
    pub closed spec fn wf(&self) -> bool {
        &&& slot_entries(self.slots).dom().finite()
        &&& forall|k: Seq<char>| #[trigger] slot_entries(self.slots).contains_key(k)
            ==> slot_entries(self.slots)[k] < self.functions.len()
    }

    /// Creates an empty registry.
    pub fn new() -> (r: Self)
        ensures
            r.wf(),
            r.registered() == Map::<Seq<char>, F>::empty(),
    {
        let r = FunctionRegistry { slots: slots_new(), functions: Vec::new() };
        assert(r.registered() =~= Map::<Seq<char>, F>::empty());
        r
    }

    /// Registers a function under an id. An id can be registered only once.
    pub fn register(&mut self, id: FunctionId, function: F) -> (r: Result<()>)
        requires
            old(self).wf(),
        ensures
            final(self).wf(),
            old(self).registered().contains_key(id@) ==> *final(self) == *old(self)
                && (r matches Err(RustyRayError::Internal(m)) && m@ == "Function "@ + id@ + " already registered"@),
            !old(self).registered().contains_key(id@) ==> r is Ok
                && final(self).registered() == old(self).registered().insert(id@, function),
    {
        if slots_contains(&self.slots, &id) {
            let mut m = "Function ".to_owned();
            m.append(id.as_str());
            m.append(" already registered");
            return Err(RustyRayError::Internal(m));
        }
        let slot = self.functions.len();
        let ghost pre = *self;
        self.functions.push(function);
        slots_insert(&mut self.slots, id, slot);
        assert(self.registered() =~= pre.registered().insert(id@, function)) by {
            assert forall|k: Seq<char>| #[trigger] slot_entries(pre.slots).contains_key(k) implies
                self.functions@[slot_entries(pre.slots)[k] as int] == pre.functions@[slot_entries(pre.slots)[k] as int] by {
            }
        }
        Ok(())
    }

    /// Whether a function is registered under `id`.
    pub fn contains(&self, id: &FunctionId) -> (r: bool)
        requires
            self.wf(),
        ensures
            r == self.registered().contains_key(id@),
    {
        slots_contains(&self.slots, id)
    }

    /// The number of registered functions.
    pub fn len(&self) -> (n: usize)
        requires
            self.wf(),
        ensures
            n == self.registered().dom().len(),
    {
        assert(self.registered().dom() =~= slot_entries(self.slots).dom());
        slots_len(&self.slots)
    }

    /// Whether no function is registered.
    pub fn is_empty(&self) -> (r: bool)
        requires
            self.wf(),
        ensures
            r == (self.registered().dom().len() == 0),
    {
        self.len() == 0
    }

    /// Removes every registered function.
    pub fn clear(&mut self)
        requires
            old(self).wf(),
        ensures
            final(self).wf(),
            final(self).registered() == Map::<Seq<char>, F>::empty(),
    {
        slots_clear(&mut self.slots);
        self.functions.clear();
        assert(self.registered() =~= Map::<Seq<char>, F>::empty());
    }
}

impl<F: Clone> FunctionRegistry<F> {
    /// A handle to the function registered under `id`, if any.
    pub fn get(&self, id: &FunctionId) -> (r: Option<F>)
        requires
            self.wf(),
        ensures
            r is Some <==> self.registered().contains_key(id@),
            r matches Some(f) ==> cloned::<F>(self.registered()[id@], f),
    {
        match slots_get(&self.slots, id) {
            Some(slot) => Some(self.functions[slot].clone()),
            None => None,
        }
    }

    /// The function to run for a task calling `id`: the one registered under
    /// it, or a task execution error saying that no such function exists.
    pub fn resolve(&self, id: &FunctionId) -> (r: Result<F>)
        requires
            self.wf(),
        ensures
            self.registered().contains_key(id@) ==> (r matches Ok(f) && cloned::<F>(self.registered()[id@], f)),
            !self.registered().contains_key(id@) ==> (r matches Err(RustyRayError::TaskExecutionFailed(m))
                && m@ == "Function "@ + id@ + " not found"@),
    {
        match self.get(id) {
            Some(f) => Ok(f),
            None => {
                let mut m = "Function ".to_owned();
                m.append(id.as_str());
                m.append(" not found");
                Err(RustyRayError::TaskExecutionFailed(m))
            },
        }
    }
}

} // verus!
