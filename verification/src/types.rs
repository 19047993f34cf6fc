//! Identifiers shared by the object store, the task system and the actor system.

use std::collections::hash_map::RandomState;
use std::hash::BuildHasher;
use vstd::prelude::*;

verus! {

/// Creates a hasher state seeded with fresh random keys.
///
/// Calls `std::collections::hash_map::RandomState::new`. Nothing is claimed
/// of the keys: they are random.
#[verifier::external_body]
fn random_state_new() -> RandomState {
    RandomState::new()
}

/// Hashes `x` with the given state.
///
/// Calls `std::hash::BuildHasher::hash_one`. The result depends on the
/// state's random keys, so nothing is claimed of it.
#[verifier::external_body]
fn hash_one_u64(state: &RandomState, x: u64) -> u64 {
    state.hash_one(x)
}

/// Draws a fresh 64-bit identifier. Identifiers drawn this way are random,
/// so two of them differ except with negligible probability.
fn fresh_id_bits() -> u64 {
    let state = random_state_new();
    hash_one_u64(&state, 0)
}

/// The digit character for `d < 10`.
pub open spec fn digit_char(d: nat) -> char {
    (48 + d) as char
}

/// The base-10 spelling of `n`, without sign or leading zeros.
pub open spec fn decimal_digits(n: nat) -> Seq<char>
    decreases n,
{
    if n < 10 {
        seq![digit_char(n)]
    } else {
        decimal_digits(n / 10).push(digit_char(n % 10))
    }
}

/// Formats `n` in base 10.
///
/// Calls `ToString::to_string` on a `u64`, whose `Display` prints the
/// base-10 digits of the number with no sign and no leading zeros.
#[verifier::external_body]
pub(crate) fn u64_to_decimal(n: u64) -> (s: String)
    ensures
        s@ == decimal_digits(n as nat),
{
    n.to_string()
}

/// Unique identifier of an object in the object store.
#[derive(Debug, Clone, Copy, PartialEq, Eq, Hash, Structural)]
pub struct ObjectId {
    pub id: u64,
}

/// Unique identifier of a task.
#[derive(Debug, Clone, Copy, PartialEq, Eq, Hash, Structural)]
pub struct TaskId {
    pub id: u64,
}

/// Unique identifier of an actor.
#[derive(Debug, Clone, Copy, PartialEq, Eq, Hash, Structural)]
pub struct ActorId {
    pub id: u64,
}

impl ObjectId {
    /// A fresh, random object identifier.
    pub fn new() -> (r: Self) {
        ObjectId { id: fresh_id_bits() }
    }

    /// The identifier with the given numeric value.
    pub fn from_u64(id: u64) -> (r: Self)
        ensures
            r.id == id,
    {
        ObjectId { id }
    }

    /// How the identifier is displayed: its numeric value in base 10.
    pub fn to_string(&self) -> (s: String)
        ensures
            s@ == decimal_digits(self.id as nat),
    {
        u64_to_decimal(self.id)
    }
}

impl TaskId {
    /// A fresh, random task identifier.
    pub fn new() -> (r: Self) {
        TaskId { id: fresh_id_bits() }
    }

    /// The task identifier that carries the same value as an object
    /// identifier (a task's result is stored under that object id).
    pub fn from_object_id(object_id: ObjectId) -> (r: Self)
        ensures
            r.id == object_id.id,
    {
        TaskId { id: object_id.id }
    }

    /// How the identifier is displayed: its numeric value in base 10.
    pub fn to_string(&self) -> (s: String)
        ensures
            s@ == decimal_digits(self.id as nat),
    {
        u64_to_decimal(self.id)
    }
}

impl ActorId {
    /// A fresh, random actor identifier.
    pub fn new() -> (r: Self) {
        ActorId { id: fresh_id_bits() }
    }

    /// How the identifier is displayed: its numeric value in base 10.
    pub fn to_string(&self) -> (s: String)
        ensures
            s@ == decimal_digits(self.id as nat),
    {
        u64_to_decimal(self.id)
    }
}

} // verus!
