//! Tests of the recipe codec: decoding, defaults, untagged shape
//! resolution, and the round-trip guarantee.

use data_parser::json::json_eq;
use data_parser::json::JNum;
use data_parser::json::Json;
use data_parser::models::recipe::decode_recipe;
use data_parser::models::recipe::encode_recipe;
use data_parser::models::recipe::is_one_u8;
use data_parser::models::recipe::is_true;
use data_parser::models::recipe::one_u8;
use data_parser::models::recipe::true_;
use data_parser::models::recipe::DecodeError;
use data_parser::models::recipe::Fluid;
use data_parser::models::recipe::IconData;
use data_parser::models::recipe::Ingredient;
use data_parser::models::recipe::ManyOutputs;
use data_parser::models::recipe::Output;
use data_parser::models::recipe::OutputItem;
use data_parser::models::recipe::Recipe;
use data_parser::models::recipe::RecipeData;
use data_parser::models::recipe::RecipeDataEnum;
use data_parser::models::recipe::RecipeDataWithHardMode;
use data_parser::models::recipe::SingleOutput;

/// Converts a parsed transport tree into the library's JSON model.
fn jconv(v: &serde_json::Value) -> Json {
    match v {
        serde_json::Value::Null => Json::Null,
        serde_json::Value::Bool(b) => Json::Bool(*b),
        serde_json::Value::Number(n) => {
            if let Some(u) = n.as_u64() {
                Json::Num(JNum::PosInt(u))
            } else if let Some(i) = n.as_i64() {
                Json::Num(JNum::NegInt(i))
            } else {
                Json::Num(JNum::Float(n.as_f64().unwrap().to_bits()))
            }
        }
        serde_json::Value::String(s) => Json::Str(s.clone()),
        serde_json::Value::Array(a) => Json::Arr(a.iter().map(jconv).collect()),
        serde_json::Value::Object(m) => {
            Json::Obj(m.iter().map(|(k, v)| (k.clone(), jconv(v))).collect())
        }
    }
}

fn parse(recipe: &str) -> Json {
    jconv(&serde_json::from_str::<serde_json::Value>(recipe).unwrap())
}

fn get<'a>(j: &'a Json, key: &str) -> Option<&'a Json> {
    match j {
        Json::Obj(pairs) => pairs
            .iter()
            .rev()
            .find(|(k, _)| k == key)
            .map(|(_, v)| v),
        _ => None,
    }
}

fn roundtrip(recipe: &str) {
    let value = parse(recipe);
    let parsed = decode_recipe(&value).unwrap();
    let reserialized = encode_recipe(&parsed);
    assert!(json_eq(&reserialized, &value));
    // Decoding the re-encoding yields the same record again.
    assert_eq!(decode_recipe(&reserialized), Ok(parsed));
}

const IRON_STICK: &str = r#"{"ingredients":[["iron-plate",1]],"name":"iron-stick","result":"iron-stick","result_count":2,"type":"recipe"}"#;

const COPPER_CABLE: &str = r#"{"ingredients":[["copper-plate",1]],"name":"copper-cable","result":"copper-cable","result_count":2,"type":"recipe"}"#;

const URANIUM_PROCESSING: &str = r#"{"category":"centrifuging","enabled":false,"energy_required":12.0,"icon":"__base__/graphics/icons/uranium-processing.png","icon_mipmaps":4,"icon_size":64,"ingredients":[["uranium-ore",10]],"name":"uranium-processing","order":"k[uranium-processing]","results":[{"amount":1,"name":"uranium-235","probability":0.007000000000000001},{"amount":1,"name":"uranium-238","probability":0.993}],"subgroup":"raw-material","type":"recipe"}"#;

const ADVANCED_OIL_PROCESSING: &str = r#"{"category":"oil-processing","enabled":false,"energy_required":5.0,"icon":"__base__/graphics/icons/fluid/advanced-oil-processing.png","icon_mipmaps":4,"icon_size":64,"ingredients":[{"amount":50,"name":"water","type":"fluid"},{"amount":100,"name":"crude-oil","type":"fluid"}],"name":"advanced-oil-processing","order":"a[oil-processing]-b[advanced-oil-processing]","results":[{"amount":25,"name":"heavy-oil","type":"fluid"},{"amount":45,"name":"light-oil","type":"fluid"},{"amount":55,"name":"petroleum-gas","type":"fluid"}],"subgroup":"fluid-recipes","type":"recipe"}"#;

#[test]
fn iron_stick_parses() {
    let expect = Recipe {
        name: "iron-stick".to_string(),
        category: None,
        subgroup: None,
        order: None,
        icon: None,
        recipe_data: RecipeDataEnum::Simple(RecipeData {
            enabled: true,
            duration: 0.5f64.to_bits(),
            ingredients: vec![Ingredient::SimpleItem("iron-plate".to_string(), 1)],
            output: Output::Single(SingleOutput {
                name: "iron-stick".to_string(),
                amount: 2,
                probability: 1.0f64.to_bits(),
            }),
        }),
    };
    let found = decode_recipe(&parse(IRON_STICK)).unwrap();
    assert_eq!(found, expect);
}

#[test]
fn iron_stick_roundtrip() {
    roundtrip(IRON_STICK);
}

#[test]
fn copper_cable_parses() {
    let expect = Recipe {
        name: "copper-cable".to_string(),
        category: None,
        subgroup: None,
        order: None,
        icon: None,
        recipe_data: RecipeDataEnum::Simple(RecipeData {
            enabled: true,
            duration: 0.5f64.to_bits(),
            ingredients: vec![Ingredient::SimpleItem("copper-plate".to_string(), 1)],
            output: Output::Single(SingleOutput {
                name: "copper-cable".to_string(),
                amount: 2,
                probability: 1.0f64.to_bits(),
            }),
        }),
    };
    let found = decode_recipe(&parse(COPPER_CABLE)).unwrap();
    assert_eq!(found, expect);
}

#[test]
fn copper_cable_roundtrip() {
    roundtrip(COPPER_CABLE);
}

#[test]
fn uranium_processing_parses() {
    let expect = Recipe {
        name: "uranium-processing".to_string(),
        category: Some("centrifuging".to_string()),
        subgroup: Some("raw-material".to_string()),
        order: Some("k[uranium-processing]".to_string()),
        icon: Some(IconData {
            path: "__base__/graphics/icons/uranium-processing.png".to_string(),
            mipmaps: 4,
            size: 64,
        }),
        recipe_data: RecipeDataEnum::Simple(RecipeData {
            enabled: false,
            duration: 12.0f64.to_bits(),
            ingredients: vec![Ingredient::SimpleItem("uranium-ore".to_string(), 10)],
            output: Output::Many(ManyOutputs {
                outputs: vec![
                    OutputItem {
                        name: "uranium-235".to_string(),
                        amount: 1,
                        probability: 0.007000000000000001f64.to_bits(),
                        kind: None,
                    },
                    OutputItem {
                        name: "uranium-238".to_string(),
                        amount: 1,
                        probability: 0.993f64.to_bits(),
                        kind: None,
                    },
                ],
            }),
        }),
    };
    let found = decode_recipe(&parse(URANIUM_PROCESSING)).unwrap();
    assert_eq!(found, expect);
}

#[test]
fn uranium_processing_roundtrip() {
    roundtrip(URANIUM_PROCESSING);
}

#[test]
fn advanced_oil_processing_parses() {
    let expect = Recipe {
        name: "advanced-oil-processing".to_string(),
        category: Some("oil-processing".to_string()),
        subgroup: Some("fluid-recipes".to_string()),
        order: Some("a[oil-processing]-b[advanced-oil-processing]".to_string()),
        icon: Some(IconData {
            path: "__base__/graphics/icons/fluid/advanced-oil-processing.png".to_string(),
            mipmaps: 4,
            size: 64,
        }),
        recipe_data: RecipeDataEnum::Simple(RecipeData {
            enabled: false,
            duration: 5.0f64.to_bits(),
            ingredients: vec![
                Ingredient::Fluid(Fluid {
                    amount: 50,
                    name: "water".to_string(),
                }),
                Ingredient::Fluid(Fluid {
                    amount: 100,
                    name: "crude-oil".to_string(),
                }),
            ],
            output: Output::Many(ManyOutputs {
                outputs: vec![
                    OutputItem {
                        name: "heavy-oil".to_string(),
                        amount: 25,
                        probability: 1.0f64.to_bits(),
                        kind: Some("fluid".to_string()),
                    },
                    OutputItem {
                        name: "light-oil".to_string(),
                        amount: 45,
                        probability: 1.0f64.to_bits(),
                        kind: Some("fluid".to_string()),
                    },
                    OutputItem {
                        name: "petroleum-gas".to_string(),
                        amount: 55,
                        probability: 1.0f64.to_bits(),
                        kind: Some("fluid".to_string()),
                    },
                ],
            }),
        }),
    };
    let found = decode_recipe(&parse(ADVANCED_OIL_PROCESSING)).unwrap();
    assert_eq!(found, expect);
}

#[test]
fn advanced_oil_processing_roundtrip() {
    roundtrip(ADVANCED_OIL_PROCESSING);
}

#[test]
fn defaults_are_omitted_on_reencoding() {
    let found = decode_recipe(&parse(IRON_STICK)).unwrap();
    match &found.recipe_data {
        RecipeDataEnum::Simple(d) => {
            assert!(d.enabled);
            assert_eq!(d.duration, 0.5f64.to_bits());
        }
        other => panic!("expected the flat shape, found {:?}", other),
    }
    let enc = encode_recipe(&found);
    assert!(get(&enc, "enabled").is_none());
    assert!(get(&enc, "result_probability").is_none());
    assert!(get(&enc, "energy_required").is_none());
    assert_eq!(get(&enc, "result_count"), Some(&Json::Num(JNum::PosInt(2))));
}

#[test]
fn fluid_ingredients_and_many_outputs() {
    let found = decode_recipe(&parse(ADVANCED_OIL_PROCESSING)).unwrap();
    match &found.recipe_data {
        RecipeDataEnum::Simple(d) => {
            assert!(matches!(d.ingredients[0], Ingredient::Fluid(_)));
            assert!(matches!(d.output, Output::Many(_)));
        }
        other => panic!("expected the flat shape, found {:?}", other),
    }
}

#[test]
fn hard_mode_resolves_without_top_level_ingredients() {
    let input = r#"{"name":"frame","type":"recipe","normal":{"ingredients":[["iron-plate",2]],"result":"frame"},"expensive":{"ingredients":[["iron-plate",4]],"result":"frame"}}"#;
    let found = decode_recipe(&parse(input)).unwrap();
    match &found.recipe_data {
        RecipeDataEnum::WithHardMode(h) => {
            assert_eq!(
                h.normal.ingredients,
                vec![Ingredient::SimpleItem("iron-plate".to_string(), 2)]
            );
            assert_eq!(
                h.expensive.ingredients,
                vec![Ingredient::SimpleItem("iron-plate".to_string(), 4)]
            );
        }
        other => panic!("expected the hard-mode shape, found {:?}", other),
    }
    let expect = Recipe {
        name: "frame".to_string(),
        category: None,
        subgroup: None,
        order: None,
        icon: None,
        recipe_data: RecipeDataEnum::WithHardMode(RecipeDataWithHardMode {
            normal: RecipeData {
                enabled: true,
                duration: 0.5f64.to_bits(),
                ingredients: vec![Ingredient::SimpleItem("iron-plate".to_string(), 2)],
                output: Output::Single(SingleOutput {
                    name: "frame".to_string(),
                    amount: 1,
                    probability: 1.0f64.to_bits(),
                }),
            },
            expensive: RecipeData {
                enabled: true,
                duration: 0.5f64.to_bits(),
                ingredients: vec![Ingredient::SimpleItem("iron-plate".to_string(), 4)],
                output: Output::Single(SingleOutput {
                    name: "frame".to_string(),
                    amount: 1,
                    probability: 1.0f64.to_bits(),
                }),
            },
        }),
    };
    assert_eq!(found, expect);
    roundtrip(input);
}

#[test]
fn integral_duration_decodes_and_reencodes_as_float() {
    let input = r#"{"energy_required":12,"ingredients":[],"name":"smelt","result":"ingot","type":"recipe"}"#;
    let value = parse(input);
    let found = decode_recipe(&value).unwrap();
    match &found.recipe_data {
        RecipeDataEnum::Simple(d) => assert_eq!(d.duration, 12.0f64.to_bits()),
        other => panic!("expected the flat shape, found {:?}", other),
    }
    let enc = encode_recipe(&found);
    assert_eq!(
        get(&enc, "energy_required"),
        Some(&Json::Num(JNum::Float(12.0f64.to_bits())))
    );
    // The representation deviation does not disturb the semantic round trip.
    assert_eq!(decode_recipe(&enc), Ok(found));
}

#[test]
fn both_output_forms_resolve_to_single() {
    let input = r#"{"ingredients":[],"name":"x","result":"y","results":[{"amount":1,"name":"z"}],"type":"recipe"}"#;
    let found = decode_recipe(&parse(input)).unwrap();
    match &found.recipe_data {
        RecipeDataEnum::Simple(d) => match &d.output {
            Output::Single(s) => assert_eq!(s.name, "y"),
            other => panic!("expected the single form, found {:?}", other),
        },
        other => panic!("expected the flat shape, found {:?}", other),
    }
}

#[test]
fn discriminant_mismatch_is_rejected() {
    let input = r#"{"ingredients":[],"name":"x","result":"y","type":"assembler"}"#;
    assert_eq!(
        decode_recipe(&parse(input)),
        Err(DecodeError::DiscriminantMismatch)
    );
}

#[test]
fn missing_required_fields_are_rejected() {
    let no_type = r#"{"ingredients":[],"name":"x","result":"y"}"#;
    assert_eq!(
        decode_recipe(&parse(no_type)),
        Err(DecodeError::MissingRequiredField)
    );
    let no_name = r#"{"ingredients":[],"result":"y","type":"recipe"}"#;
    assert_eq!(
        decode_recipe(&parse(no_name)),
        Err(DecodeError::MissingRequiredField)
    );
}

#[test]
fn partial_icon_group_is_rejected() {
    let input = r#"{"icon":"a.png","ingredients":[],"name":"x","result":"y","type":"recipe"}"#;
    assert_eq!(decode_recipe(&parse(input)), Err(DecodeError::PartialGroup));
}

#[test]
fn exhausted_shapes_are_rejected() {
    // Neither a top-level ingredient list nor the two sub-objects.
    let no_shape = r#"{"name":"x","type":"recipe"}"#;
    assert_eq!(
        decode_recipe(&parse(no_shape)),
        Err(DecodeError::NoMatchingShape)
    );
    // An ingredient that is neither a pair nor a discriminated object.
    let bad_ingredient = r#"{"ingredients":[5],"name":"x","result":"y","type":"recipe"}"#;
    assert_eq!(
        decode_recipe(&parse(bad_ingredient)),
        Err(DecodeError::NoMatchingShape)
    );
    // No output form at all.
    let no_output = r#"{"ingredients":[],"name":"x","type":"recipe"}"#;
    assert_eq!(
        decode_recipe(&parse(no_output)),
        Err(DecodeError::NoMatchingShape)
    );
}

#[test]
fn wrongly_typed_fields_are_rejected() {
    let bad_name = r#"{"ingredients":[],"name":5,"result":"y","type":"recipe"}"#;
    assert_eq!(
        decode_recipe(&parse(bad_name)),
        Err(DecodeError::InvalidField)
    );
    let bad_enabled = r#"{"enabled":"yes","ingredients":[],"name":"x","result":"y","type":"recipe"}"#;
    assert_eq!(
        decode_recipe(&parse(bad_enabled)),
        Err(DecodeError::InvalidField)
    );
    let fractional_count = r#"{"ingredients":[],"name":"x","result":"y","result_count":2.0,"type":"recipe"}"#;
    assert_eq!(
        decode_recipe(&parse(fractional_count)),
        Err(DecodeError::InvalidField)
    );
}

#[test]
fn default_helpers() {
    assert!(true_());
    assert!(is_true(&true));
    assert!(!is_true(&false));
    assert_eq!(one_u8(), 1);
    assert!(is_one_u8(&1));
    assert!(!is_one_u8(&2));
}

#[test]
fn negative_integral_duration_converts_to_the_nearest_double() {
    let input = r#"{"energy_required":-3,"ingredients":[],"name":"odd","result":"x","type":"recipe"}"#;
    let found = decode_recipe(&parse(input)).unwrap();
    match &found.recipe_data {
        RecipeDataEnum::Simple(d) => assert_eq!(d.duration, (-3.0f64).to_bits()),
        other => panic!("expected the flat shape, found {:?}", other),
    }
}

#[test]
fn amounts_at_the_range_edge() {
    let at_edge = r#"{"ingredients":[],"name":"x","result":"y","result_count":255,"type":"recipe"}"#;
    let found = decode_recipe(&parse(at_edge)).unwrap();
    match &found.recipe_data {
        RecipeDataEnum::Simple(d) => match &d.output {
            Output::Single(s) => assert_eq!(s.amount, 255),
            other => panic!("expected the single form, found {:?}", other),
        },
        other => panic!("expected the flat shape, found {:?}", other),
    }
    let over_edge = r#"{"ingredients":[],"name":"x","result":"y","result_count":256,"type":"recipe"}"#;
    assert_eq!(
        decode_recipe(&parse(over_edge)),
        Err(DecodeError::InvalidField)
    );
}
