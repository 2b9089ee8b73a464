//! Tests of the boundary layer: validation, handle acquisition, and
//! release.

use pokemon_sdk::boundary::acquire_from_outcome;
use pokemon_sdk::boundary::acquire_precheck;
use pokemon_sdk::boundary::invalid_id_text;
use pokemon_sdk::boundary::release_text;
use pokemon_sdk::boundary::resource_url_text;
use pokemon_sdk::boundary::TextHandle;
use pokemon_sdk::decode::decode_result_json;
use pokemon_sdk::model::Pokemon;
use pokemon_sdk::model::PokemonSprites;
use pokemon_sdk::model::PokemonType;
use pokemon_sdk::model::TypeInfo;

fn stub_pokemon() -> Pokemon {
    Pokemon {
        id: 1,
        name: "bulbasaur".to_string(),
        height: 7,
        weight: 69,
        base_experience: Some(64),
        sprites: PokemonSprites {
            front_default: Some("https://example.com/front.png".to_string()),
            back_default: Some("https://example.com/back.png".to_string()),
        },
        types: vec![PokemonType {
            slot: 1,
            type_info: TypeInfo {
                name: "grass".to_string(),
                url: "https://pokeapi.co/api/v2/type/12/".to_string(),
            },
        }],
    }
}

#[test]
fn test_acquire_success_stub() {
    // a stub collaborator answered with the record; the acquired handle
    // holds a success envelope carrying it
    let handle = acquire_from_outcome(Ok(stub_pokemon()));
    assert!(!handle.is_null());
    let text = handle.take_text().expect("non-null handle owns text");
    let decoded = decode_result_json(&text).expect("acquired text must decode");
    assert!(decoded.success);
    assert!(decoded.error.is_none());
    let p = decoded.pokemon.expect("success envelope carries the record");
    assert_eq!(p.id, 1);
    assert_eq!(p.name, "bulbasaur");
    assert_eq!(p.types[0].type_info.name, "grass");
}

#[test]
fn test_acquire_invalid_zero() {
    // identifier 0 is rejected before any fetch
    let handle = acquire_precheck(0).expect("0 is outside the catalog range");
    assert!(!handle.is_null());
    let text = handle.take_text().expect("non-null handle owns text");
    assert!(text.contains("Invalid"));
    assert!(text.contains("0"));
    assert!(text.contains("1025"));
    let decoded = decode_result_json(&text).expect("acquired text must decode");
    assert!(!decoded.success);
    assert!(decoded.pokemon.is_none());
    let err = decoded.error.expect("failure envelope carries an error");
    assert!(err.contains("Invalid"));
    assert!(err.contains("0"));
    assert!(err.contains("1025"));
}

#[test]
fn test_precheck_range_edges() {
    assert!(acquire_precheck(0).is_some());
    assert!(acquire_precheck(1).is_none());
    assert!(acquire_precheck(50).is_none());
    assert!(acquire_precheck(1025).is_none());
    assert!(acquire_precheck(1026).is_some());
    assert!(acquire_precheck(9999999).is_some());
}

#[test]
fn test_acquire_transport_fault() {
    // the collaborator reported a transport fault for a valid identifier
    assert!(acquire_precheck(50).is_none());
    let fault = "fetch failed: connection timed out".to_string();
    let handle = acquire_from_outcome(Err(fault.clone()));
    assert!(!handle.is_null());
    let text = handle.take_text().expect("non-null handle owns text");
    let decoded = decode_result_json(&text).expect("acquired text must decode");
    assert!(!decoded.success);
    assert!(decoded.pokemon.is_none());
    assert_eq!(decoded.error.as_deref(), Some(fault.as_str()));
}

#[test]
fn test_release_null_many_times() {
    for _ in 0..32 {
        release_text(TextHandle::null());
    }
}

#[test]
fn test_release_acquired_handle() {
    let handle = acquire_from_outcome(Ok(stub_pokemon()));
    release_text(handle);
}

#[test]
fn test_independent_handles() {
    // several acquisitions yield independently owned, independently
    // releasable handles with identical content
    let mut texts: Vec<String> = Vec::new();
    for _ in 0..4 {
        let handle = acquire_from_outcome(Ok(stub_pokemon()));
        assert!(!handle.is_null());
        texts.push(handle.take_text().unwrap());
    }
    for t in &texts {
        assert_eq!(t, &texts[0]);
        assert!(decode_result_json(t).is_some());
    }
}

#[test]
fn test_invalid_message_exact() {
    assert_eq!(
        invalid_id_text(0),
        "Invalid Pokemon ID: 0. Must be between 1 and 1025."
    );
    assert_eq!(
        invalid_id_text(4000),
        "Invalid Pokemon ID: 4000. Must be between 1 and 1025."
    );
}

#[test]
fn test_resource_url() {
    assert_eq!(resource_url_text(25), "https://pokeapi.co/api/v2/pokemon/25");
    assert_eq!(resource_url_text(1), "https://pokeapi.co/api/v2/pokemon/1");
}

#[test]
fn test_handle_from_text_rejects_nul() {
    let handle = TextHandle::from_text("a\u{0}b".to_string());
    assert!(handle.is_null());
    assert!(handle.take_text().is_none());
}

#[test]
fn test_handle_from_text_keeps_clean_text() {
    let handle = TextHandle::from_text("plain".to_string());
    assert!(!handle.is_null());
    assert_eq!(handle.take_text().as_deref(), Some("plain"));
}

#[test]
fn test_null_handle_owns_nothing() {
    let handle = TextHandle::null();
    assert!(handle.is_null());
    assert!(handle.take_text().is_none());
}
