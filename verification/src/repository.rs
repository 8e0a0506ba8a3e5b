//! Storage of entities, keyed by identifier.
//!
//! The `Repository` trait is the storage contract the use case executor
//! relies on: insertion detects conflicts on the identifier and may report
//! a storage failure. `InMemoryRepository` is the reference implementation,
//! a plain map with an injectable failure mode for exercising the error
//! path.

use crate::entities::{Pokemon, PokemonName, PokemonNumber, PokemonTypes, PokemonView};
use std::collections::HashMap;
use vstd::prelude::*;

verus! {

broadcast use vstd::std_specs::hash::group_hash_axioms;

/// Outcome of one insertion attempt.
pub enum Insert {
    /// The entity was stored; the identifier it was stored under is
    /// echoed back (the same one that was supplied).
    Inserted(PokemonNumber),
    /// An entity with this identifier already exists; nothing changed.
    Conflict,
    /// The storage layer failed; nothing changed.
    Error,
}

/// The storage contract.
///
/// A repository is modelled by the entities it holds, keyed by raw
/// identifier, and by whether it is in a failing state. Insertion is
/// atomic with respect to the uniqueness check: it succeeds exactly when
/// the repository is not failing and the identifier is free, and then
/// stores exactly the supplied fields.
pub trait Repository {
    /// The entities held, keyed by their raw identifier.
    spec fn contents(&self) -> Map<u16, PokemonView>;

    /// Whether the storage layer currently fails every insertion.
    spec fn failing(&self) -> bool;

    /// Inserts an entity unless its identifier is taken or storage fails.
    fn insert(&mut self, number: PokemonNumber, name: PokemonName, types: PokemonTypes) -> (r:
        Insert)
        ensures
            final(self).failing() == old(self).failing(),
            old(self).failing() ==> r is Error && final(self).contents() == old(self).contents(),
            !old(self).failing() && old(self).contents().contains_key(number@) ==> r is Conflict
                && final(self).contents() == old(self).contents(),
            !old(self).failing() && !old(self).contents().contains_key(number@) ==> (r matches
                Insert::Inserted(m) && m@ == number@) && final(self).contents() == old(
                self,
            ).contents().insert(
                number@,
                PokemonView { number: number@, name: name@, types: types@ },
            ),
    ;
}

/// Reference implementation of the storage contract: a map guarded by the
/// caller's exclusive access, with a failure mode that makes every
/// insertion report `Insert::Error`.
pub struct InMemoryRepository {
    error: bool,
    store: HashMap<u16, Pokemon>,
}

impl InMemoryRepository {
    /// An empty repository whose failure mode is off.
    pub fn new() -> (r: InMemoryRepository)
        ensures
            r.contents() == Map::<u16, PokemonView>::empty(),
            !r.failing(),
    {
        let r = InMemoryRepository { error: false, store: HashMap::new() };
        proof {
            assert(r.contents() =~= Map::<u16, PokemonView>::empty());
        }
        r
    }

    /// The same repository with the failure mode switched on.
    pub fn with_error(self) -> (r: InMemoryRepository)
        ensures
            r.contents() == self.contents(),
            r.failing(),
    {
        InMemoryRepository { error: true, store: self.store }
    }

    /// Looks an entity up by its raw identifier.
    pub fn get(&self, number: u16) -> (r: Option<&Pokemon>)
        ensures
            match r {
                Some(p) => self.contents().contains_key(number) && p@ == self.contents()[number],
                None => !self.contents().contains_key(number),
            },
    {
        self.store.get(&number)
    }

    /// How many entities are stored.
    pub fn len(&self) -> (n: usize)
        ensures
            n == self.contents().len(),
    {
        proof {
            assert(self.contents().dom() =~= self.store@.dom());
        }
        self.store.len()
    }
}

impl Repository for InMemoryRepository {
    closed spec fn contents(&self) -> Map<u16, PokemonView> {
        Map::new(|k: u16| self.store@.contains_key(k), |k: u16| self.store@[k]@)
    }

    closed spec fn failing(&self) -> bool {
        self.error
    }

    /// Checks the failure mode, then the identifier, then stores: the
    /// uniqueness check and the write happen under one exclusive borrow,
    /// so no two insertions of the same identifier can both succeed.
    fn insert(&mut self, number: PokemonNumber, name: PokemonName, types: PokemonTypes) -> (r:
        Insert) {
        if self.error {
            return Insert::Error;
        }
        let key = number.value();
        if self.store.contains_key(&key) {
            return Insert::Conflict;
        }
        let entity = Pokemon::new(number, name, types);
        self.store.insert(key, entity);
        proof {
            assert(self.contents() =~= old(self).contents().insert(
                number@,
                PokemonView { number: number@, name: name@, types: types@ },
            ));
        }
        Insert::Inserted(number)
    }
}

} // verus!
