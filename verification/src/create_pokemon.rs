//! The create-entity use case.
//!
//! `execute` validates the three raw fields of a request independently;
//! if any fails it answers `BadRequest` without touching the repository,
//! otherwise it hands the validated entity to the repository exactly once
//! and maps the insertion outcome one to one onto the response.

use crate::entities::{
    valid_name, valid_number, valid_types, PokemonName, PokemonNumber, PokemonTypes, PokemonView,
};
use crate::repository::{Insert, Repository};
use vstd::prelude::*;

verus! {

/// A raw, not yet validated request to create an entity.
pub struct Request {
    pub number: u16,
    pub name: String,
    pub types: Vec<String>,
}

/// What a request holds, seen mathematically.
pub ghost struct RequestView {
    pub number: u16,
    pub name: Seq<char>,
    pub types: Seq<Seq<char>>,
}

impl View for Request {
    type V = RequestView;

    open spec fn view(&self) -> RequestView {
        RequestView {
            number: self.number,
            name: self.name@,
            types: self.types@.map_values(|s: String| s@),
        }
    }
}

/// Whether every field of a raw request passes validation.
pub open spec fn valid_request(req: RequestView) -> bool {
    valid_number(req.number) && valid_name(req.name) && valid_types(req.types)
}

/// The entity a valid request describes.
pub open spec fn requested_entity(req: RequestView) -> PokemonView {
    PokemonView { number: req.number, name: req.name, types: req.types }
}

/// The outcome of one use case run.
pub enum Response {
    /// All validations passed and the repository accepted the entity;
    /// carries the identifier it was stored under.
    Created(u16),
    /// At least one field failed validation; the repository was not called.
    BadRequest,
    /// Validation passed but an entity with this identifier already exists.
    Conflict,
    /// Validation passed but the storage layer failed.
    Error,
}

/// The response the use case owes, as a function of the repository's
/// state and the raw request.
pub open spec fn expected_response(
    store: Map<u16, PokemonView>,
    failing: bool,
    req: RequestView,
) -> Response {
    if !valid_request(req) {
        Response::BadRequest
    } else if failing {
        Response::Error
    } else if store.contains_key(req.number) {
        Response::Conflict
    } else {
        Response::Created(req.number)
    }
}

/// The repository contents after one use case run: unchanged unless the
/// request is valid, storage works, and the identifier is free.
pub open spec fn expected_store(
    store: Map<u16, PokemonView>,
    failing: bool,
    req: RequestView,
) -> Map<u16, PokemonView> {
    if valid_request(req) && !failing && !store.contains_key(req.number) {
        store.insert(req.number, requested_entity(req))
    } else {
        store
    }
}

/// Runs the use case once: validate, insert, classify.
pub fn execute<R: Repository>(repo: &mut R, req: Request) -> (r: Response)
    ensures
        r == expected_response(old(repo).contents(), old(repo).failing(), req@),
        final(repo).contents() == expected_store(old(repo).contents(), old(repo).failing(), req@),
        final(repo).failing() == old(repo).failing(),
{
    let Request { number, name, types } = req;
    match (
        PokemonNumber::try_from(number),
        PokemonName::try_from(name),
        PokemonTypes::try_from(types),
    ) {
        (Ok(number), Ok(name), Ok(types)) => match repo.insert(number, name, types) {
            Insert::Conflict => Response::Conflict,
            Insert::Inserted(number) => Response::Created(number.value()),
            Insert::Error => Response::Error,
        },
        _ => Response::BadRequest,
    }
}

/// Law: a valid request whose identifier is not yet stored is answered
/// `Created` with that identifier, and afterwards the store holds, under
/// that identifier, exactly the fields the request carried.
pub proof fn lemma_valid_request_created(store: Map<u16, PokemonView>, req: RequestView)
    requires
        valid_request(req),
        !store.contains_key(req.number),
    ensures
        expected_response(store, false, req) == Response::Created(req.number),
        expected_store(store, false, req).contains_key(req.number),
        expected_store(store, false, req)[req.number] == requested_entity(req),
{
}

/// Law: an invalid request is answered `BadRequest` and leaves any
/// repository, failing or not, exactly as it was.
pub proof fn lemma_invalid_request_rejected(
    store: Map<u16, PokemonView>,
    failing: bool,
    req: RequestView,
)
    requires
        !valid_request(req),
    ensures
        expected_response(store, failing, req) == Response::BadRequest,
        expected_store(store, failing, req) == store,
{
}

/// Law: rejection is idempotent. Running the same invalid request twice
/// answers `BadRequest` both times and never mutates the repository.
pub proof fn lemma_rejection_idempotent(
    store: Map<u16, PokemonView>,
    failing: bool,
    req: RequestView,
)
    requires
        !valid_request(req),
    ensures
        expected_response(store, failing, req) == Response::BadRequest,
        expected_store(store, failing, req) == store,
        expected_response(expected_store(store, failing, req), failing, req)
            == Response::BadRequest,
        expected_store(expected_store(store, failing, req), failing, req) == store,
{
}

/// Law: inserting the same identifier twice creates once, then conflicts,
/// and the stored entity still reflects the first request only, whatever
/// name and categories the second one carried.
pub proof fn lemma_duplicate_insert_conflicts(
    store: Map<u16, PokemonView>,
    first: RequestView,
    second: RequestView,
)
    requires
        valid_request(first),
        valid_request(second),
        second.number == first.number,
        !store.contains_key(first.number),
    ensures
        expected_response(store, false, first) == Response::Created(first.number),
        expected_response(expected_store(store, false, first), false, second)
            == Response::Conflict,
        expected_store(expected_store(store, false, first), false, second) == expected_store(
            store,
            false,
            first,
        ),
        expected_store(expected_store(store, false, first), false, second)[first.number]
            == requested_entity(first),
{
}

/// Law: with the failure mode on, any otherwise-valid request is answered
/// `Error` and no entry is added.
pub proof fn lemma_forced_failure(store: Map<u16, PokemonView>, req: RequestView)
    requires
        valid_request(req),
    ensures
        expected_response(store, true, req) == Response::Error,
        expected_store(store, true, req) == store,
{
}

} // verus!
