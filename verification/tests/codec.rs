//! Tests of the canonical JSON codec: exact shapes, round trips, and
//! cross-checks against an independent JSON parser.

use pokemon_sdk::decode::decode_result_json;
use pokemon_sdk::encode::result_to_json;
use pokemon_sdk::model::Pokemon;
use pokemon_sdk::model::PokemonResult;
use pokemon_sdk::model::PokemonSprites;
use pokemon_sdk::model::PokemonType;
use pokemon_sdk::model::TypeInfo;

fn sample_pokemon() -> Pokemon {
    Pokemon {
        id: 1,
        name: "bulbasaur".to_string(),
        height: 7,
        weight: 69,
        base_experience: Some(64),
        sprites: PokemonSprites {
            front_default: Some("https://example.com/front.png".to_string()),
            back_default: Some("https://example.com/back.png".to_string()),
        },
        types: vec![PokemonType {
            slot: 1,
            type_info: TypeInfo {
                name: "grass".to_string(),
                url: "https://pokeapi.co/api/v2/type/12/".to_string(),
            },
        }],
    }
}

#[test]
fn test_pokemon_serialization() {
    let result = PokemonResult {
        success: true,
        pokemon: Some(sample_pokemon()),
        error: None,
    };

    let json = result_to_json(&result);
    assert!(!json.is_empty());
    // the rendered text is well-formed JSON
    let parsed: Result<serde_json::Value, serde_json::Error> = serde_json::from_str(&json);
    assert!(parsed.is_ok());
}

#[test]
fn test_canonical_shape_cross_check() {
    let result = PokemonResult {
        success: true,
        pokemon: Some(sample_pokemon()),
        error: None,
    };
    let json = result_to_json(&result);
    let v: serde_json::Value = serde_json::from_str(&json).unwrap();
    assert_eq!(v["success"], serde_json::Value::Bool(true));
    assert!(v["error"].is_null());
    let p = &v["pokemon"];
    assert_eq!(p["id"].as_u64(), Some(1));
    assert_eq!(p["name"].as_str(), Some("bulbasaur"));
    assert_eq!(p["height"].as_u64(), Some(7));
    assert_eq!(p["weight"].as_u64(), Some(69));
    assert_eq!(p["base_experience"].as_u64(), Some(64));
    assert_eq!(
        p["sprites"]["front_default"].as_str(),
        Some("https://example.com/front.png")
    );
    assert_eq!(
        p["sprites"]["back_default"].as_str(),
        Some("https://example.com/back.png")
    );
    assert_eq!(p["types"][0]["slot"].as_u64(), Some(1));
    assert_eq!(p["types"][0]["type"]["name"].as_str(), Some("grass"));
    assert_eq!(
        p["types"][0]["type"]["url"].as_str(),
        Some("https://pokeapi.co/api/v2/type/12/")
    );
}

#[test]
fn test_round_trip_full() {
    let result = PokemonResult {
        success: true,
        pokemon: Some(sample_pokemon()),
        error: None,
    };
    let json = result_to_json(&result);
    let back = decode_result_json(&json).expect("canonical text must decode");
    assert_eq!(back, result);
}

#[test]
fn test_round_trip_error_envelope() {
    let result = PokemonResult {
        success: false,
        pokemon: None,
        error: Some("fetch failed: boom".to_string()),
    };
    let json = result_to_json(&result);
    let back = decode_result_json(&json).expect("canonical text must decode");
    assert_eq!(back, result);
}

#[test]
fn test_round_trip_escapes() {
    let mut p = sample_pokemon();
    p.name = "a\"b\\c\nd\u{0}e\u{7}f".to_string();
    let result = PokemonResult {
        success: true,
        pokemon: Some(p),
        error: None,
    };
    let json = result_to_json(&result);
    // no raw control character survives in the rendered text
    assert!(!json.contains('\u{0}'));
    assert!(!json.contains('\n'));
    let back = decode_result_json(&json).expect("canonical text must decode");
    assert_eq!(back, result);
    // an independent parser reads the same name back
    let v: serde_json::Value = serde_json::from_str(&json).unwrap();
    assert_eq!(
        v["pokemon"]["name"].as_str(),
        Some("a\"b\\c\nd\u{0}e\u{7}f")
    );
}

#[test]
fn test_exact_json_minimal() {
    let result = PokemonResult {
        success: true,
        pokemon: Some(Pokemon {
            id: 5,
            name: "x".to_string(),
            height: 0,
            weight: 0,
            base_experience: None,
            sprites: PokemonSprites {
                front_default: None,
                back_default: None,
            },
            types: vec![],
        }),
        error: None,
    };
    let json = result_to_json(&result);
    assert_eq!(
        json,
        "{\"success\":true,\"pokemon\":{\"id\":5,\"name\":\"x\",\"height\":0,\"weight\":0,\
         \"base_experience\":null,\"sprites\":{\"front_default\":null,\"back_default\":null},\
         \"types\":[]},\"error\":null}"
    );
}

#[test]
fn test_exact_json_error() {
    let result = PokemonResult {
        success: false,
        pokemon: None,
        error: Some("boom".to_string()),
    };
    let json = result_to_json(&result);
    assert_eq!(json, "{\"success\":false,\"pokemon\":null,\"error\":\"boom\"}");
}

#[test]
fn test_number_bounds_round_trip() {
    let mut p = sample_pokemon();
    p.id = u32::MAX;
    p.base_experience = Some(0);
    let result = PokemonResult {
        success: true,
        pokemon: Some(p),
        error: None,
    };
    let json = result_to_json(&result);
    assert!(json.contains("\"id\":4294967295"));
    assert!(json.contains("\"base_experience\":0"));
    let back = decode_result_json(&json).expect("canonical text must decode");
    assert_eq!(back, result);
}

#[test]
fn test_two_type_entries_round_trip() {
    let mut p = sample_pokemon();
    p.types.push(PokemonType {
        slot: 2,
        type_info: TypeInfo {
            name: "poison".to_string(),
            url: "https://pokeapi.co/api/v2/type/4/".to_string(),
        },
    });
    let result = PokemonResult {
        success: true,
        pokemon: Some(p),
        error: None,
    };
    let json = result_to_json(&result);
    let back = decode_result_json(&json).expect("canonical text must decode");
    assert_eq!(back, result);
    let v: serde_json::Value = serde_json::from_str(&json).unwrap();
    assert_eq!(v["pokemon"]["types"][1]["type"]["name"].as_str(), Some("poison"));
}

#[test]
fn test_decode_rejects_malformed() {
    assert!(decode_result_json("").is_none());
    assert!(decode_result_json("{}").is_none());
    assert!(decode_result_json("{\"success\":true}").is_none());
    let good = "{\"success\":false,\"pokemon\":null,\"error\":\"boom\"}";
    assert!(decode_result_json(good).is_some());
    let trailing = format!("{} ", good);
    assert!(decode_result_json(&trailing).is_none());
    // a numeral too large for the identifier type is rejected
    let huge = "{\"success\":true,\"pokemon\":{\"id\":99999999999999999999,\"name\":\"x\",\
        \"height\":0,\"weight\":0,\"base_experience\":null,\"sprites\":{\"front_default\":null,\
        \"back_default\":null},\"types\":[]},\"error\":null}";
    assert!(decode_result_json(huge).is_none());
}
