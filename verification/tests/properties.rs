use pokedex::create_pokemon::{execute, Request, Response};
use pokedex::entities::{PokemonName, PokemonNumber, PokemonTypes, ValidationError};
use pokedex::repository::InMemoryRepository;

fn pikachu_request() -> Request {
    Request {
        number: 25,
        name: String::from("Pikachu"),
        types: vec![String::from("Electric")],
    }
}

#[test]
fn creating_stores_the_requested_fields() {
    let mut repo = InMemoryRepository::new();

    let res = execute(&mut repo, pikachu_request());

    assert!(matches!(res, Response::Created(25)));
    assert_eq!(repo.len(), 1);
    let stored = repo.get(25).unwrap();
    assert_eq!(stored.number().value(), 25);
    assert_eq!(stored.name().value().as_str(), "Pikachu");
    let labels = stored.types().values();
    assert_eq!(labels.len(), 1);
    assert_eq!(labels[0].as_str(), "Electric");
}

#[test]
fn repeating_the_same_request_conflicts() {
    let mut repo = InMemoryRepository::new();

    let first = execute(&mut repo, pikachu_request());
    let second = execute(&mut repo, pikachu_request());

    assert!(matches!(first, Response::Created(25)));
    assert!(matches!(second, Response::Conflict));
    assert_eq!(repo.len(), 1);
}

#[test]
fn conflicting_insert_keeps_the_first_entity() {
    let mut repo = InMemoryRepository::new();

    let first = execute(&mut repo, pikachu_request());
    let second = execute(
        &mut repo,
        Request {
            number: 25,
            name: String::from("Charmander"),
            types: vec![String::from("Fire")],
        },
    );

    assert!(matches!(first, Response::Created(25)));
    assert!(matches!(second, Response::Conflict));
    assert_eq!(repo.len(), 1);
    let stored = repo.get(25).unwrap();
    assert_eq!(stored.name().value().as_str(), "Pikachu");
    assert_eq!(stored.types().values()[0].as_str(), "Electric");
}

#[test]
fn empty_name_is_rejected_without_touching_the_store() {
    let mut repo = InMemoryRepository::new();
    let req = Request {
        number: 25,
        name: String::from(""),
        types: vec![String::from("Electric")],
    };

    let res = execute(&mut repo, req);

    assert!(matches!(res, Response::BadRequest));
    assert_eq!(repo.len(), 0);
    assert!(repo.get(25).is_none());
}

#[test]
fn empty_category_list_is_rejected() {
    let mut repo = InMemoryRepository::new();
    let req = Request {
        number: 25,
        name: String::from("Pikachu"),
        types: vec![],
    };

    let res = execute(&mut repo, req);

    assert!(matches!(res, Response::BadRequest));
    assert_eq!(repo.len(), 0);
}

#[test]
fn empty_category_label_is_rejected() {
    let mut repo = InMemoryRepository::new();
    let req = Request {
        number: 25,
        name: String::from("Pikachu"),
        types: vec![String::from("Electric"), String::from("")],
    };

    let res = execute(&mut repo, req);

    assert!(matches!(res, Response::BadRequest));
    assert_eq!(repo.len(), 0);
}

#[test]
fn out_of_range_number_is_rejected() {
    let mut repo = InMemoryRepository::new();
    let req = Request {
        number: 0,
        name: String::from("Pikachu"),
        types: vec![String::from("Electric")],
    };

    let res = execute(&mut repo, req);

    assert!(matches!(res, Response::BadRequest));
    assert_eq!(repo.len(), 0);
}

#[test]
fn rejecting_the_same_invalid_request_twice_never_mutates() {
    let mut repo = InMemoryRepository::new();
    let invalid = || Request {
        number: 25,
        name: String::from(""),
        types: vec![String::from("Electric")],
    };

    let first = execute(&mut repo, invalid());
    let second = execute(&mut repo, invalid());

    assert!(matches!(first, Response::BadRequest));
    assert!(matches!(second, Response::BadRequest));
    assert_eq!(repo.len(), 0);
}

#[test]
fn forced_failure_adds_no_entry() {
    let mut repo = InMemoryRepository::new().with_error();

    let res = execute(&mut repo, pikachu_request());

    assert!(matches!(res, Response::Error));
    assert_eq!(repo.len(), 0);
    assert!(repo.get(25).is_none());
}

#[test]
fn number_validation_accepts_exactly_the_range() {
    assert_eq!(PokemonNumber::try_from(0).map(|n| n.value()), Err(ValidationError));
    assert_eq!(PokemonNumber::try_from(1).map(|n| n.value()), Ok(1));
    assert_eq!(PokemonNumber::try_from(25).map(|n| n.value()), Ok(25));
    assert_eq!(PokemonNumber::try_from(65535).map(|n| n.value()), Ok(65535));
}

#[test]
fn name_validation_rejects_exactly_the_empty_string() {
    assert!(PokemonName::try_from(String::from("")).is_err());
    let name = PokemonName::try_from(String::from("Pikachu")).unwrap();
    assert_eq!(name.value().as_str(), "Pikachu");
}

#[test]
fn category_validation_keeps_order_and_duplicates() {
    assert!(PokemonTypes::try_from(vec![]).is_err());
    assert!(PokemonTypes::try_from(vec![String::from("")]).is_err());
    assert!(
        PokemonTypes::try_from(vec![String::from("Fire"), String::from("")]).is_err()
    );

    let types = PokemonTypes::try_from(vec![
        String::from("Electric"),
        String::from("Fire"),
        String::from("Electric"),
    ])
    .unwrap();
    let labels = types.values();
    assert_eq!(labels.len(), 3);
    assert_eq!(labels[0].as_str(), "Electric");
    assert_eq!(labels[1].as_str(), "Fire");
    assert_eq!(labels[2].as_str(), "Electric");
}
