//! Validated value types and the entity they assemble into.
//!
//! Each value type is built through a fallible constructor that enforces
//! a field-level invariant: the identifier lies in a bounded range, the
//! name is non-empty, and the category list is non-empty with every label
//! itself non-empty. An entity can only be assembled from values that
//! already validated.

use vstd::prelude::*;
use vstd::string::StrSliceExecFns;

verus! {

/// Smallest identifier a pokemon may carry.
pub const MIN_NUMBER: u16 = 1;

/// Largest identifier a pokemon may carry.
pub const MAX_NUMBER: u16 = 65535;

/// Error reported by every fallible value-type constructor.
#[derive(Clone, Copy, Debug, PartialEq, Eq)]
pub struct ValidationError;

/// Whether a raw number lies in the permitted identifier range.
pub open spec fn valid_number(n: u16) -> bool {
    MIN_NUMBER <= n && n <= MAX_NUMBER
}

/// Whether a raw name is acceptable: it must not be empty.
pub open spec fn valid_name(s: Seq<char>) -> bool {
    s.len() > 0
}

/// Whether a raw category list is acceptable: at least one label, and
/// no empty label anywhere in it.
pub open spec fn valid_types(ts: Seq<Seq<char>>) -> bool {
    &&& ts.len() > 0
    &&& forall|i: int| 0 <= i < ts.len() ==> #[trigger] ts[i].len() > 0
}

/// A pokemon identifier, guaranteed to lie in the permitted range.
#[derive(Clone, Copy)]
pub struct PokemonNumber {
    value: u16,
}

impl View for PokemonNumber {
    type V = u16;

    closed spec fn view(&self) -> u16 {
        self.value
    }
}

impl PokemonNumber {
    /// Accepts exactly the raw numbers inside the permitted range.
    pub fn try_from(n: u16) -> (r: Result<PokemonNumber, ValidationError>)
        ensures
            r is Ok <==> valid_number(n),
            r matches Ok(p) ==> p@ == n,
    {
        if MIN_NUMBER <= n && n <= MAX_NUMBER {
            Ok(PokemonNumber { value: n })
        } else {
            Err(ValidationError)
        }
    }

    /// The raw number this identifier wraps.
    pub fn value(&self) -> (r: u16)
        ensures
            r == self@,
    {
        self.value
    }
}

/// A pokemon name, guaranteed non-empty.
pub struct PokemonName {
    value: String,
}

impl View for PokemonName {
    type V = Seq<char>;

    closed spec fn view(&self) -> Seq<char> {
        self.value@
    }
}

impl PokemonName {
    /// Accepts exactly the non-empty raw names.
    pub fn try_from(s: String) -> (r: Result<PokemonName, ValidationError>)
        ensures
            r is Ok <==> valid_name(s@),
            r matches Ok(n) ==> n@ == s@,
    {
        if s.as_str().unicode_len() == 0 {
            Err(ValidationError)
        } else {
            Ok(PokemonName { value: s })
        }
    }

    /// The raw text this name wraps.
    pub fn value(&self) -> (r: &String)
        ensures
            r@ == self@,
    {
        &self.value
    }
}

/// A pokemon's category labels: a non-empty list in which every label is
/// itself non-empty. Order is kept and duplicates are not removed.
pub struct PokemonTypes {
    values: Vec<String>,
}

impl View for PokemonTypes {
    type V = Seq<Seq<char>>;

    closed spec fn view(&self) -> Seq<Seq<char>> {
        self.values@.map_values(|s: String| s@)
    }
}

impl PokemonTypes {
    /// Accepts exactly the non-empty lists whose labels are all non-empty.
    pub fn try_from(ts: Vec<String>) -> (r: Result<PokemonTypes, ValidationError>)
        ensures
            r is Ok <==> valid_types(ts@.map_values(|s: String| s@)),
            r matches Ok(t) ==> t@ == ts@.map_values(|s: String| s@),
    {
        if ts.len() == 0 {
            return Err(ValidationError);
        }
        let mut i: usize = 0;
        while i < ts.len()
            invariant
                i <= ts@.len(),
                forall|j: int| 0 <= j < i ==> #[trigger] ts@[j]@.len() > 0,
            decreases ts@.len() - i,
        {
            if ts[i].as_str().unicode_len() == 0 {
                proof {
                    let mapped = ts@.map_values(|s: String| s@);
                    assert(mapped[i as int] == ts@[i as int]@);
                }
                return Err(ValidationError);
            }
            i += 1;
        }
        Ok(PokemonTypes { values: ts })
    }

    /// The raw labels this list wraps.
    pub fn values(&self) -> (r: &Vec<String>)
        ensures
            r@.map_values(|s: String| s@) == self@,
    {
        &self.values
    }
}

/// The validated aggregate: an entity exists only once all three of its
/// fields have passed validation.
pub struct Pokemon {
    number: PokemonNumber,
    name: PokemonName,
    types: PokemonTypes,
}

/// What an entity holds, seen mathematically.
pub ghost struct PokemonView {
    pub number: u16,
    pub name: Seq<char>,
    pub types: Seq<Seq<char>>,
}

impl View for Pokemon {
    type V = PokemonView;

    closed spec fn view(&self) -> PokemonView {
        PokemonView { number: self.number@, name: self.name@, types: self.types@ }
    }
}

impl Pokemon {
    /// Assembles an entity from already-validated fields.
    pub fn new(number: PokemonNumber, name: PokemonName, types: PokemonTypes) -> (r: Pokemon)
        ensures
            r@ == (PokemonView { number: number@, name: name@, types: types@ }),
    {
        Pokemon { number, name, types }
    }

    /// The entity's identifier.
    pub fn number(&self) -> (r: PokemonNumber)
        ensures
            r@ == self@.number,
    {
        self.number
    }

    /// The entity's name.
    pub fn name(&self) -> (r: &PokemonName)
        ensures
            r@ == self@.name,
    {
        &self.name
    }

    /// The entity's category labels.
    pub fn types(&self) -> (r: &PokemonTypes)
        ensures
            r@ == self@.types,
    {
        &self.types
    }
}

} // verus!
