//! The library's cross-function laws, stated and proved over the same
//! specifications the executable functions are verified against.

use vstd::prelude::*;

use crate::generic_transform::all_positional;
use crate::generic_transform::dec_str;
use crate::generic_transform::eval_expr;
use crate::generic_transform::eval_list;
use crate::generic_transform::eval_table;
use crate::generic_transform::index_of_key;
use crate::generic_transform::keyed_key_string;
use crate::generic_transform::upsert;
use crate::generic_transform::ErrorV;
use crate::generic_transform::ValueV;
use crate::num::is_finite_bits;
use crate::num::parse_bits;
use crate::json::jindex_of_key;
use crate::json::json_of_items;
use crate::json::json_of_pairs;
use crate::json::json_of_value;
use crate::json::lemma_obj_get_push;
use crate::json::obj_get;
use crate::json::JNum;
use crate::json::JsonV;
use crate::models::recipe::decode_data_v;
use crate::models::recipe::decode_ingredient_v;
use crate::models::recipe::decode_ingredients_v;
use crate::models::recipe::decode_output_item_v;
use crate::models::recipe::decode_output_items_v;
use crate::models::recipe::decode_output_v;
use crate::models::recipe::decode_recipe_v;
use crate::models::recipe::encode_data_pairs_v;
use crate::models::recipe::encode_ingredient_v;
use crate::models::recipe::encode_ingredients_v;
use crate::models::recipe::encode_output_item_v;
use crate::models::recipe::encode_output_items_v;
use crate::models::recipe::encode_output_pairs_v;
use crate::models::recipe::encode_recipe_v;
use crate::models::recipe::DecodeError;
use crate::models::recipe::IngredientV;
use crate::models::recipe::OutputItemV;
use crate::models::recipe::OutputV;
use crate::models::recipe::RecipeDataEnumV;
use crate::models::recipe::RecipeDataV;
use crate::models::recipe::RecipeV;
use crate::syntax::ExprKindV;
use crate::syntax::TokenV;
use crate::syntax::ExprV;
use crate::syntax::FieldV;

verus! {

/// The wire format's field names and discriminants are pairwise distinct.
pub proof fn lemma_wire_keys()
    ensures
        "name"@ != "type"@,
        "name"@ != "category"@,
        "name"@ != "subgroup"@,
        "name"@ != "order"@,
        "name"@ != "icon"@,
        "name"@ != "icon_mipmaps"@,
        "name"@ != "icon_size"@,
        "name"@ != "enabled"@,
        "name"@ != "energy_required"@,
        "name"@ != "ingredients"@,
        "name"@ != "result"@,
        "name"@ != "result_count"@,
        "name"@ != "result_probability"@,
        "name"@ != "results"@,
        "name"@ != "normal"@,
        "name"@ != "expensive"@,
        "name"@ != "amount"@,
        "name"@ != "probability"@,
        "name"@ != "fluid"@,
        "name"@ != "item"@,
        "type"@ != "category"@,
        "type"@ != "subgroup"@,
        "type"@ != "order"@,
        "type"@ != "icon"@,
        "type"@ != "icon_mipmaps"@,
        "type"@ != "icon_size"@,
        "type"@ != "enabled"@,
        "type"@ != "energy_required"@,
        "type"@ != "ingredients"@,
        "type"@ != "result"@,
        "type"@ != "result_count"@,
        "type"@ != "result_probability"@,
        "type"@ != "results"@,
        "type"@ != "normal"@,
        "type"@ != "expensive"@,
        "type"@ != "amount"@,
        "type"@ != "probability"@,
        "type"@ != "fluid"@,
        "type"@ != "item"@,
        "category"@ != "subgroup"@,
        "category"@ != "order"@,
        "category"@ != "icon"@,
        "category"@ != "icon_mipmaps"@,
        "category"@ != "icon_size"@,
        "category"@ != "enabled"@,
        "category"@ != "energy_required"@,
        "category"@ != "ingredients"@,
        "category"@ != "result"@,
        "category"@ != "result_count"@,
        "category"@ != "result_probability"@,
        "category"@ != "results"@,
        "category"@ != "normal"@,
        "category"@ != "expensive"@,
        "category"@ != "amount"@,
        "category"@ != "probability"@,
        "category"@ != "fluid"@,
        "category"@ != "item"@,
        "subgroup"@ != "order"@,
        "subgroup"@ != "icon"@,
        "subgroup"@ != "icon_mipmaps"@,
        "subgroup"@ != "icon_size"@,
        "subgroup"@ != "enabled"@,
        "subgroup"@ != "energy_required"@,
        "subgroup"@ != "ingredients"@,
        "subgroup"@ != "result"@,
        "subgroup"@ != "result_count"@,
        "subgroup"@ != "result_probability"@,
        "subgroup"@ != "results"@,
        "subgroup"@ != "normal"@,
        "subgroup"@ != "expensive"@,
        "subgroup"@ != "amount"@,
        "subgroup"@ != "probability"@,
        "subgroup"@ != "fluid"@,
        "subgroup"@ != "item"@,
        "order"@ != "icon"@,
        "order"@ != "icon_mipmaps"@,
        "order"@ != "icon_size"@,
        "order"@ != "enabled"@,
        "order"@ != "energy_required"@,
        "order"@ != "ingredients"@,
        "order"@ != "result"@,
        "order"@ != "result_count"@,
        "order"@ != "result_probability"@,
        "order"@ != "results"@,
        "order"@ != "normal"@,
        "order"@ != "expensive"@,
        "order"@ != "amount"@,
        "order"@ != "probability"@,
        "order"@ != "fluid"@,
        "order"@ != "item"@,
        "icon"@ != "icon_mipmaps"@,
        "icon"@ != "icon_size"@,
        "icon"@ != "enabled"@,
        "icon"@ != "energy_required"@,
        "icon"@ != "ingredients"@,
        "icon"@ != "result"@,
        "icon"@ != "result_count"@,
        "icon"@ != "result_probability"@,
        "icon"@ != "results"@,
        "icon"@ != "normal"@,
        "icon"@ != "expensive"@,
        "icon"@ != "amount"@,
        "icon"@ != "probability"@,
        "icon"@ != "fluid"@,
        "icon"@ != "item"@,
        "icon_mipmaps"@ != "icon_size"@,
        "icon_mipmaps"@ != "enabled"@,
        "icon_mipmaps"@ != "energy_required"@,
        "icon_mipmaps"@ != "ingredients"@,
        "icon_mipmaps"@ != "result"@,
        "icon_mipmaps"@ != "result_count"@,
        "icon_mipmaps"@ != "result_probability"@,
        "icon_mipmaps"@ != "results"@,
        "icon_mipmaps"@ != "normal"@,
        "icon_mipmaps"@ != "expensive"@,
        "icon_mipmaps"@ != "amount"@,
        "icon_mipmaps"@ != "probability"@,
        "icon_mipmaps"@ != "fluid"@,
        "icon_mipmaps"@ != "item"@,
        "icon_size"@ != "enabled"@,
        "icon_size"@ != "energy_required"@,
        "icon_size"@ != "ingredients"@,
        "icon_size"@ != "result"@,
        "icon_size"@ != "result_count"@,
        "icon_size"@ != "result_probability"@,
        "icon_size"@ != "results"@,
        "icon_size"@ != "normal"@,
        "icon_size"@ != "expensive"@,
        "icon_size"@ != "amount"@,
        "icon_size"@ != "probability"@,
        "icon_size"@ != "fluid"@,
        "icon_size"@ != "item"@,
        "enabled"@ != "energy_required"@,
        "enabled"@ != "ingredients"@,
        "enabled"@ != "result"@,
        "enabled"@ != "result_count"@,
        "enabled"@ != "result_probability"@,
        "enabled"@ != "results"@,
        "enabled"@ != "normal"@,
        "enabled"@ != "expensive"@,
        "enabled"@ != "amount"@,
        "enabled"@ != "probability"@,
        "enabled"@ != "fluid"@,
        "enabled"@ != "item"@,
        "energy_required"@ != "ingredients"@,
        "energy_required"@ != "result"@,
        "energy_required"@ != "result_count"@,
        "energy_required"@ != "result_probability"@,
        "energy_required"@ != "results"@,
        "energy_required"@ != "normal"@,
        "energy_required"@ != "expensive"@,
        "energy_required"@ != "amount"@,
        "energy_required"@ != "probability"@,
        "energy_required"@ != "fluid"@,
        "energy_required"@ != "item"@,
        "ingredients"@ != "result"@,
        "ingredients"@ != "result_count"@,
        "ingredients"@ != "result_probability"@,
        "ingredients"@ != "results"@,
        "ingredients"@ != "normal"@,
        "ingredients"@ != "expensive"@,
        "ingredients"@ != "amount"@,
        "ingredients"@ != "probability"@,
        "ingredients"@ != "fluid"@,
        "ingredients"@ != "item"@,
        "result"@ != "result_count"@,
        "result"@ != "result_probability"@,
        "result"@ != "results"@,
        "result"@ != "normal"@,
        "result"@ != "expensive"@,
        "result"@ != "amount"@,
        "result"@ != "probability"@,
        "result"@ != "fluid"@,
        "result"@ != "item"@,
        "result_count"@ != "result_probability"@,
        "result_count"@ != "results"@,
        "result_count"@ != "normal"@,
        "result_count"@ != "expensive"@,
        "result_count"@ != "amount"@,
        "result_count"@ != "probability"@,
        "result_count"@ != "fluid"@,
        "result_count"@ != "item"@,
        "result_probability"@ != "results"@,
        "result_probability"@ != "normal"@,
        "result_probability"@ != "expensive"@,
        "result_probability"@ != "amount"@,
        "result_probability"@ != "probability"@,
        "result_probability"@ != "fluid"@,
        "result_probability"@ != "item"@,
        "results"@ != "normal"@,
        "results"@ != "expensive"@,
        "results"@ != "amount"@,
        "results"@ != "probability"@,
        "results"@ != "fluid"@,
        "results"@ != "item"@,
        "normal"@ != "expensive"@,
        "normal"@ != "amount"@,
        "normal"@ != "probability"@,
        "normal"@ != "fluid"@,
        "normal"@ != "item"@,
        "expensive"@ != "amount"@,
        "expensive"@ != "probability"@,
        "expensive"@ != "fluid"@,
        "expensive"@ != "item"@,
        "amount"@ != "probability"@,
        "amount"@ != "fluid"@,
        "amount"@ != "item"@,
        "probability"@ != "fluid"@,
        "probability"@ != "item"@,
        "fluid"@ != "item"@,
{
    reveal_strlit("name");
    reveal_strlit("type");
    reveal_strlit("category");
    reveal_strlit("subgroup");
    reveal_strlit("order");
    reveal_strlit("icon");
    reveal_strlit("icon_mipmaps");
    reveal_strlit("icon_size");
    reveal_strlit("enabled");
    reveal_strlit("energy_required");
    reveal_strlit("ingredients");
    reveal_strlit("result");
    reveal_strlit("result_count");
    reveal_strlit("result_probability");
    reveal_strlit("results");
    reveal_strlit("normal");
    reveal_strlit("expensive");
    reveal_strlit("amount");
    reveal_strlit("probability");
    reveal_strlit("fluid");
    reveal_strlit("item");
    assert("name"@.len() == 4);
    assert("type"@.len() == 4);
    assert("category"@.len() == 8);
    assert("subgroup"@.len() == 8);
    assert("order"@.len() == 5);
    assert("icon"@.len() == 4);
    assert("icon_mipmaps"@.len() == 12);
    assert("icon_size"@.len() == 9);
    assert("enabled"@.len() == 7);
    assert("energy_required"@.len() == 15);
    assert("ingredients"@.len() == 11);
    assert("result"@.len() == 6);
    assert("result_count"@.len() == 12);
    assert("result_probability"@.len() == 18);
    assert("results"@.len() == 7);
    assert("normal"@.len() == 6);
    assert("expensive"@.len() == 9);
    assert("amount"@.len() == 6);
    assert("probability"@.len() == 11);
    assert("fluid"@.len() == 5);
    assert("item"@.len() == 4);
    assert("amount"@[0] == 'a');
    assert("category"@[0] == 'c');
    assert("enabled"@[0] == 'e');
    assert("expensive"@[0] == 'e');
    assert("fluid"@[0] == 'f');
    assert("icon"@[0] == 'i');
    assert("icon"@[1] == 'c');
    assert("icon_mipmaps"@[0] == 'i');
    assert("icon_size"@[0] == 'i');
    assert("ingredients"@[0] == 'i');
    assert("item"@[0] == 'i');
    assert("item"@[1] == 't');
    assert("name"@[0] == 'n');
    assert("normal"@[0] == 'n');
    assert("order"@[0] == 'o');
    assert("probability"@[0] == 'p');
    assert("result"@[0] == 'r');
    assert("result_count"@[0] == 'r');
    assert("results"@[0] == 'r');
    assert("subgroup"@[0] == 's');
    assert("type"@[0] == 't');
}

/// One encoded ingredient decodes back to itself.
proof fn lemma_ingredient_round(ing: IngredientV)
    ensures
        decode_ingredient_v(encode_ingredient_v(ing)) == Ok::<IngredientV, DecodeError>(ing),
{
    broadcast use lemma_obj_get_push;

    lemma_wire_keys();
    let e = Seq::<(Seq<char>, JsonV)>::empty();
    match ing {
        IngredientV::SimpleItem(name, amount) => {
        },
        IngredientV::Fluid { amount, name } => {
            let ap = ("amount"@, JsonV::Num(JNum::PosInt(amount as u64)));
            let np = ("name"@, JsonV::Str(name));
            let tp = ("type"@, JsonV::Str("fluid"@));
            let p = seq![ap, np, tp];
            assert(p =~= e.push(ap).push(np).push(tp));
            assert(obj_get(e, "type"@) is None);
            assert(obj_get(e, "amount"@) is None);
            assert(obj_get(e, "name"@) is None);
            assert(obj_get(p, "type"@) == Some(JsonV::Str("fluid"@)));
            assert(obj_get(p, "amount"@) == Some(JsonV::Num(JNum::PosInt(amount as u64))));
            assert(obj_get(p, "name"@) == Some(JsonV::Str(name)));
        },
        IngredientV::Item { amount, name } => {
            let ap = ("amount"@, JsonV::Num(JNum::PosInt(amount as u64)));
            let np = ("name"@, JsonV::Str(name));
            let tp = ("type"@, JsonV::Str("item"@));
            let p = seq![ap, np, tp];
            assert(p =~= e.push(ap).push(np).push(tp));
            assert(obj_get(e, "type"@) is None);
            assert(obj_get(e, "amount"@) is None);
            assert(obj_get(e, "name"@) is None);
            assert(obj_get(p, "type"@) == Some(JsonV::Str("item"@)));
            assert(obj_get(p, "amount"@) == Some(JsonV::Num(JNum::PosInt(amount as u64))));
            assert(obj_get(p, "name"@) == Some(JsonV::Str(name)));
        },
    }
}

/// An encoded ingredient list decodes back to itself.
proof fn lemma_ingredients_round(s: Seq<IngredientV>)
    ensures
        decode_ingredients_v(encode_ingredients_v(s)) == Ok::<Seq<IngredientV>, DecodeError>(s),
    decreases s,
{
    if s.len() == 0 {
        assert(s =~= Seq::<IngredientV>::empty());
    } else {
        lemma_ingredient_round(s[0]);
        lemma_ingredients_round(s.skip(1));
        let es = encode_ingredients_v(s);
        assert(es[0] == encode_ingredient_v(s[0]));
        assert(es.skip(1) =~= encode_ingredients_v(s.skip(1)));
        assert(seq![s[0]] + s.skip(1) =~= s);
    }
}

/// One encoded output item decodes back to itself.
proof fn lemma_output_item_round(it: OutputItemV)
    ensures
        decode_output_item_v(encode_output_item_v(it)) == Ok::<OutputItemV, DecodeError>(it),
{
    broadcast use lemma_obj_get_push;

    lemma_wire_keys();
    let e = Seq::<(Seq<char>, JsonV)>::empty();
    let s0 = seq![
        ("name"@, JsonV::Str(it.name)),
        ("amount"@, JsonV::Num(JNum::PosInt(it.amount as u64))),
    ];
    assert(s0 =~= e.push(("name"@, JsonV::Str(it.name))).push(
        ("amount"@, JsonV::Num(JNum::PosInt(it.amount as u64))),
    ));
    assert(obj_get(e, "name"@) is None);
    assert(obj_get(e, "amount"@) is None);
    assert(obj_get(e, "probability"@) is None);
    assert(obj_get(e, "type"@) is None);
}

/// An encoded output-item list decodes back to itself.
proof fn lemma_output_items_round(s: Seq<OutputItemV>)
    ensures
        decode_output_items_v(encode_output_items_v(s)) == Ok::<Seq<OutputItemV>, DecodeError>(s),
    decreases s,
{
    if s.len() == 0 {
        assert(s =~= Seq::<OutputItemV>::empty());
    } else {
        lemma_output_item_round(s[0]);
        lemma_output_items_round(s.skip(1));
        let es = encode_output_items_v(s);
        assert(es[0] == encode_output_item_v(s[0]));
        assert(es.skip(1) =~= encode_output_items_v(s.skip(1)));
        assert(seq![s[0]] + s.skip(1) =~= s);
    }
}

/// An output encoded onto clean entries decodes back to itself.
proof fn lemma_output_round(o: OutputV, acc: Seq<(Seq<char>, JsonV)>)
    requires
        obj_get(acc, "result"@) is None,
        obj_get(acc, "result_count"@) is None,
        obj_get(acc, "result_probability"@) is None,
        obj_get(acc, "results"@) is None,
    ensures
        decode_output_v(encode_output_pairs_v(o, acc)) == Ok::<OutputV, DecodeError>(o),
{
    broadcast use lemma_obj_get_push;

    lemma_wire_keys();
    match o {
        OutputV::Single(s) => {
        },
        OutputV::Many(items) => {
            lemma_output_items_round(items);
        },
    }
}

/// A flat body encoded onto clean entries decodes back to itself, and the
/// encoded entries carry an `ingredients` field.
proof fn lemma_data_round(d: RecipeDataV, acc: Seq<(Seq<char>, JsonV)>)
    requires
        obj_get(acc, "enabled"@) is None,
        obj_get(acc, "energy_required"@) is None,
        obj_get(acc, "ingredients"@) is None,
        obj_get(acc, "result"@) is None,
        obj_get(acc, "result_count"@) is None,
        obj_get(acc, "result_probability"@) is None,
        obj_get(acc, "results"@) is None,
    ensures
        decode_data_v(encode_data_pairs_v(d, acc)) == Ok::<RecipeDataV, DecodeError>(d),
        obj_get(encode_data_pairs_v(d, acc), "ingredients"@) is Some,
{
    broadcast use lemma_obj_get_push;

    lemma_wire_keys();
    lemma_ingredients_round(d.ingredients);
    let a0 = if d.enabled {
        acc
    } else {
        acc.push(("enabled"@, JsonV::Bool(false)))
    };
    let a1 = if d.duration == crate::num::HALF_BITS {
        a0
    } else {
        a0.push(("energy_required"@, JsonV::Num(JNum::Float(d.duration))))
    };
    let a2 = a1.push(("ingredients"@, JsonV::Arr(encode_ingredients_v(d.ingredients))));
    lemma_output_round(d.output, a2);
}

/// ROUND-TRIP LAW: every recipe record decodes back from its own encoding.
/// Decoding is a left inverse of encoding on all records.
#[verifier::rlimit(100)]
#[verifier::spinoff_prover]
pub proof fn lemma_decode_encode_recipe(r: RecipeV)
    ensures
        decode_recipe_v(encode_recipe_v(r)) == Ok::<RecipeV, DecodeError>(r),
{
    broadcast use lemma_obj_get_push;

    lemma_wire_keys();
    reveal_strlit("recipe");
    let e = Seq::<(Seq<char>, JsonV)>::empty();
    let a0 = seq![("name"@, JsonV::Str(r.name)), ("type"@, JsonV::Str("recipe"@))];
    assert(a0 =~= e.push(("name"@, JsonV::Str(r.name))).push(("type"@, JsonV::Str("recipe"@))));
    assert(obj_get(e, "name"@) is None);
    assert(obj_get(e, "type"@) is None);
    assert(obj_get(e, "category"@) is None);
    assert(obj_get(e, "subgroup"@) is None);
    assert(obj_get(e, "order"@) is None);
    assert(obj_get(e, "icon"@) is None);
    assert(obj_get(e, "icon_mipmaps"@) is None);
    assert(obj_get(e, "icon_size"@) is None);
    assert(obj_get(e, "enabled"@) is None);
    assert(obj_get(e, "energy_required"@) is None);
    assert(obj_get(e, "ingredients"@) is None);
    assert(obj_get(e, "result"@) is None);
    assert(obj_get(e, "result_count"@) is None);
    assert(obj_get(e, "result_probability"@) is None);
    assert(obj_get(e, "results"@) is None);
    assert(obj_get(e, "normal"@) is None);
    assert(obj_get(e, "expensive"@) is None);
    let a1 = match r.category {
        None => a0,
        Some(c) => a0.push(("category"@, JsonV::Str(c))),
    };
    let a2 = match r.subgroup {
        None => a1,
        Some(c) => a1.push(("subgroup"@, JsonV::Str(c))),
    };
    let a3 = match r.order {
        None => a2,
        Some(c) => a2.push(("order"@, JsonV::Str(c))),
    };
    let a4 = match r.icon {
        None => a3,
        Some(ic) => a3.push(("icon"@, JsonV::Str(ic.path))).push(
            ("icon_mipmaps"@, JsonV::Num(JNum::PosInt(ic.mipmaps as u64))),
        ).push(("icon_size"@, JsonV::Num(JNum::PosInt(ic.size as u64)))),
    };
    match r.recipe_data {
        RecipeDataEnumV::Simple(d) => {
            lemma_data_round(d, a4);
        },
        RecipeDataEnumV::WithHardMode { normal, expensive } => {
            lemma_data_round(normal, e);
            lemma_data_round(expensive, e);
        },
    }
}

/// ROUND-TRIP LAW, as seen from an accepted input: for every JSON tree the
/// decoder accepts, decoding its re-encoding yields the same record again,
/// and re-encoding that record a second time yields the identical JSON tree.
pub proof fn lemma_round_trip(x: JsonV)
    requires
        decode_recipe_v(x) is Ok,
    ensures
        decode_recipe_v(encode_recipe_v(decode_recipe_v(x)->Ok_0)) == decode_recipe_v(x),
        encode_recipe_v(decode_recipe_v(encode_recipe_v(decode_recipe_v(x)->Ok_0))->Ok_0)
            == encode_recipe_v(decode_recipe_v(x)->Ok_0),
{
    lemma_decode_encode_recipe(decode_recipe_v(x)->Ok_0);
}

/// CLASSIFICATION LAW: a table constructor whose fields are all positional
/// evaluates to a list (or fails); one with any keyed field never yields a
/// list — it evaluates to a table or fails.
pub proof fn lemma_table_classification(e: ExprV, fields: Seq<FieldV>)
    requires
        e.kind == ExprKindV::Table(fields),
    ensures
        all_positional(fields) ==> (eval_expr(e) matches Ok(v) ==> v is List),
        !all_positional(fields) ==> (eval_expr(e) matches Ok(v) ==> v is Table),
{
}

/// ORDER LAW: a list constructor's items are evaluated and kept in source
/// order — the value list is exactly as long as the field list, and the
/// item at each position is the evaluation of the field at that position.
pub proof fn lemma_list_order(fields: Seq<FieldV>, idx: int, items: Seq<ValueV>)
    requires
        0 <= idx <= fields.len(),
        eval_list(fields, idx) == Ok::<Seq<ValueV>, ErrorV>(items),
    ensures
        items.len() == fields.len() - idx,
        forall|i: int|
            idx <= i < fields.len() ==> (#[trigger] fields[i] matches FieldV::Positional(fe)
                && Ok::<ValueV, ErrorV>(items[i - idx]) == eval_expr(fe)),
    decreases fields.len() - idx,
{
    if idx < fields.len() {
        match fields[idx] {
            FieldV::Positional(fe) => {
                match eval_expr(fe) {
                    Ok(v) => {
                        let rest = eval_list(fields, idx + 1)->Ok_0;
                        lemma_list_order(fields, idx + 1, rest);
                        assert(items == seq![v] + rest);
                        assert(items[0] == v);
                        assert(forall|i: int|
                            idx + 1 <= i < fields.len() ==> #[trigger] items[i - idx] == rest[i - (
                            idx + 1)]);
                    },
                    Err(_) => {
                    },
                }
            },
            _ => {
            },
        }
    }
}

/// The expression is built of literals alone: scalar tokens, parentheses and
/// table constructors — no operators, calls or references.
pub open spec fn no_operators(e: ExprV) -> bool
    decreases e, 0int,
{
    match e.kind {
        ExprKindV::Scalar(_) => true,
        ExprKindV::Paren(inner) => no_operators(*inner),
        ExprKindV::Table(fields) => no_operators_fields(fields),
        _ => false,
    }
}

/// Every field's key and value expression is built of literals alone.
pub open spec fn no_operators_fields(fields: Seq<FieldV>) -> bool
    decreases fields, 1int,
{
    if fields.len() == 0 {
        true
    } else {
        field_no_operators(fields[0]) && no_operators_fields(fields.skip(1))
    }
}

/// One field is built of literals alone.
pub open spec fn field_no_operators(f: FieldV) -> bool
    decreases f, 0int,
{
    match f {
        FieldV::Named { value, .. } => no_operators(value),
        FieldV::Keyed { key, value } => no_operators(key) && no_operators(value),
        FieldV::Positional(e) => no_operators(e),
        FieldV::Other => true,
    }
}

/// Inserts a key into a JSON entry sequence: replaces the value at an
/// existing key, else appends.
pub open spec fn jupsert(acc: Seq<(Seq<char>, JsonV)>, k: Seq<char>, v: JsonV) -> Seq<
    (Seq<char>, JsonV),
> {
    let i = jindex_of_key(acc, k);
    if i < 0 {
        acc.push((k, v))
    } else {
        acc.update(i, (k, v))
    }
}

/// Direct literal transcription of an operator-free source tree into JSON,
/// defined on the source alone: strings and identifiers become JSON strings,
/// a numeric literal the parsed double (or `null` where it is not finite),
/// the constant symbols their JSON scalars; an all-positional constructor
/// becomes an array in source order, any other constructor an object under
/// the same key rules the evaluator uses. `None` where the tree is not a
/// literal tree.
pub open spec fn transcribe(e: ExprV) -> Option<JsonV>
    decreases e, 0int,
{
    match e.kind {
        ExprKindV::Scalar(t) => match t {
            TokenV::Str(s) => Some(JsonV::Str(s)),
            TokenV::Ident(s) => Some(JsonV::Str(s)),
            TokenV::Num(text) => match parse_bits(text) {
                Some(b) => Some(
                    if is_finite_bits(b) {
                        JsonV::Num(JNum::Float(b))
                    } else {
                        JsonV::Null
                    },
                ),
                None => None,
            },
            TokenV::True => Some(JsonV::Bool(true)),
            TokenV::False => Some(JsonV::Bool(false)),
            TokenV::Nil => Some(JsonV::Null),
            _ => None,
        },
        ExprKindV::Paren(inner) => transcribe(*inner),
        ExprKindV::Table(fields) => if all_positional(fields) {
            match transcribe_items(fields, 0) {
                Some(items) => Some(JsonV::Arr(items)),
                None => None,
            }
        } else {
            match transcribe_entries(fields, 0, Seq::empty()) {
                Some(pairs) => Some(JsonV::Obj(pairs)),
                None => None,
            }
        },
        _ => None,
    }
}

/// Transcription of an all-positional constructor's fields, in source order.
pub open spec fn transcribe_items(fields: Seq<FieldV>, idx: int) -> Option<Seq<JsonV>>
    decreases fields, fields.len() - idx,
{
    if idx < 0 || idx >= fields.len() {
        Some(Seq::empty())
    } else {
        match fields[idx] {
            FieldV::Positional(e) => match transcribe(e) {
                Some(v) => match transcribe_items(fields, idx + 1) {
                    Some(rest) => Some(seq![v] + rest),
                    None => None,
                },
                None => None,
            },
            _ => None,
        }
    }
}

/// Transcription of a keyed constructor's fields: the same key rules the
/// evaluator uses, with replacement on a repeated key.
pub open spec fn transcribe_entries(
    fields: Seq<FieldV>,
    idx: int,
    acc: Seq<(Seq<char>, JsonV)>,
) -> Option<Seq<(Seq<char>, JsonV)>>
    decreases fields, fields.len() - idx,
{
    if idx < 0 || idx >= fields.len() {
        Some(acc)
    } else {
        match fields[idx] {
            FieldV::Named { key, value } => match transcribe(value) {
                Some(v) => transcribe_entries(fields, idx + 1, jupsert(acc, key, v)),
                None => None,
            },
            FieldV::Keyed { key, value } => match keyed_key_string(key) {
                Ok(k) => match transcribe(value) {
                    Some(v) => transcribe_entries(fields, idx + 1, jupsert(acc, k, v)),
                    None => None,
                },
                Err(_) => None,
            },
            FieldV::Positional(e) => match transcribe(e) {
                Some(v) => transcribe_entries(fields, idx + 1, jupsert(acc, dec_str(idx as nat), v)),
                None => None,
            },
            FieldV::Other => None,
        }
    }
}

/// The JSON projection of table entries, elementwise: keys kept, values
/// projected.
proof fn lemma_json_of_pairs_elem(s: Seq<(Seq<char>, ValueV)>)
    ensures
        json_of_pairs(s).len() == s.len(),
        forall|i: int| 0 <= i < s.len() ==> json_of_pairs(s)[i] == (s[i].0, json_of_value(s[i].1)),
    decreases s,
{
    if s.len() > 0 {
        lemma_json_of_pairs_elem(s.skip(1));
    }
}

/// A key's first index survives the JSON projection of the entries.
proof fn lemma_index_commute(s: Seq<(Seq<char>, ValueV)>, k: Seq<char>)
    ensures
        jindex_of_key(json_of_pairs(s), k) == index_of_key(s, k),
    decreases s,
{
    if s.len() > 0 {
        lemma_index_commute(s.skip(1), k);
        lemma_json_of_pairs_elem(s);
        assert(json_of_pairs(s).skip(1) =~= json_of_pairs(s.skip(1)));
    }
}

/// Insertion commutes with the JSON projection of the entries.
proof fn lemma_upsert_commute(acc: Seq<(Seq<char>, ValueV)>, k: Seq<char>, v: ValueV)
    ensures
        json_of_pairs(upsert(acc, k, v)) == jupsert(json_of_pairs(acc), k, json_of_value(v)),
{
    lemma_index_commute(acc, k);
    lemma_json_of_pairs_elem(acc);
    let i = index_of_key(acc, k);
    if i < 0 {
        lemma_json_of_pairs_elem(acc.push((k, v)));
        assert(json_of_pairs(acc.push((k, v))) =~= json_of_pairs(acc).push(
            (k, json_of_value(v)),
        ));
    } else {
        crate::generic_transform::lemma_index_of_key(acc, k);
        lemma_json_of_pairs_elem(acc.update(i, (k, v)));
        assert(json_of_pairs(acc.update(i, (k, v))) =~= json_of_pairs(acc).update(
            i,
            (k, json_of_value(v)),
        ));
    }
}

/// TRANSCRIPTION LAW: on an operator-free tree — pure nested literals,
/// tables and lists — evaluating and projecting to JSON yields exactly the
/// direct literal transcription of the source.
pub proof fn lemma_literal_transcription(e: ExprV)
    requires
        no_operators(e),
    ensures
        eval_expr(e) matches Ok(v) ==> transcribe(e) == Some(json_of_value(v)),
    decreases e, 0int,
{
    match e.kind {
        ExprKindV::Scalar(t) => {
        },
        ExprKindV::Paren(inner) => {
            lemma_literal_transcription(*inner);
        },
        ExprKindV::Table(fields) => {
            if all_positional(fields) {
                lemma_literal_transcription_items(fields, 0);
            } else {
                lemma_literal_transcription_entries(fields, 0, Seq::empty());
                assert(json_of_pairs(Seq::<(Seq<char>, ValueV)>::empty()) =~= Seq::<
                    (Seq<char>, JsonV),
                >::empty());
            }
        },
        _ => {
        },
    }
}

/// Transcription law for an all-positional constructor's fields.
proof fn lemma_literal_transcription_items(fields: Seq<FieldV>, idx: int)
    requires
        no_operators_fields(fields),
        0 <= idx,
    ensures
        eval_list(fields, idx) matches Ok(items) ==> transcribe_items(fields, idx) == Some(
            json_of_items(items),
        ),
    decreases fields, fields.len() - idx,
{
    lemma_no_operators_fields_elem(fields);
    if idx < fields.len() {
        match fields[idx] {
            FieldV::Positional(fe) => {
                lemma_literal_transcription(fe);
                lemma_literal_transcription_items(fields, idx + 1);
                match eval_expr(fe) {
                    Ok(v) => {
                        match eval_list(fields, idx + 1) {
                            Ok(rest) => {
                                assert(json_of_items(seq![v] + rest) =~= seq![json_of_value(v)]
                                    + json_of_items(rest)) by {
                                    assert((seq![v] + rest)[0] == v);
                                    assert((seq![v] + rest).skip(1) =~= rest);
                                }
                            },
                            Err(_) => {
                            },
                        }
                    },
                    Err(_) => {
                    },
                }
            },
            _ => {
            },
        }
    }
}

/// Transcription law for a keyed constructor's fields.
proof fn lemma_literal_transcription_entries(
    fields: Seq<FieldV>,
    idx: int,
    acc: Seq<(Seq<char>, ValueV)>,
)
    requires
        no_operators_fields(fields),
        0 <= idx,
    ensures
        eval_table(fields, idx, acc) matches Ok(pairs) ==> transcribe_entries(
            fields,
            idx,
            json_of_pairs(acc),
        ) == Some(json_of_pairs(pairs)),
    decreases fields, fields.len() - idx,
{
    lemma_no_operators_fields_elem(fields);
    if idx < fields.len() {
        match fields[idx] {
            FieldV::Named { key, value } => {
                lemma_literal_transcription(value);
                match eval_expr(value) {
                    Ok(v) => {
                        lemma_upsert_commute(acc, key, v);
                        lemma_literal_transcription_entries(fields, idx + 1, upsert(acc, key, v));
                    },
                    Err(_) => {
                    },
                }
            },
            FieldV::Keyed { key, value } => {
                lemma_literal_transcription(value);
                match keyed_key_string(key) {
                    Ok(k) => {
                        match eval_expr(value) {
                            Ok(v) => {
                                lemma_upsert_commute(acc, k, v);
                                lemma_literal_transcription_entries(
                                    fields,
                                    idx + 1,
                                    upsert(acc, k, v),
                                );
                            },
                            Err(_) => {
                            },
                        }
                    },
                    Err(_) => {
                    },
                }
            },
            FieldV::Positional(fe) => {
                lemma_literal_transcription(fe);
                match eval_expr(fe) {
                    Ok(v) => {
                        lemma_upsert_commute(acc, dec_str(idx as nat), v);
                        lemma_literal_transcription_entries(
                            fields,
                            idx + 1,
                            upsert(acc, dec_str(idx as nat), v),
                        );
                    },
                    Err(_) => {
                    },
                }
            },
            FieldV::Other => {
            },
        }
    }
}

/// Field-sequence literalness is exactly elementwise literalness.
proof fn lemma_no_operators_fields_elem(fields: Seq<FieldV>)
    ensures
        no_operators_fields(fields) <==> (forall|i: int|
            0 <= i < fields.len() ==> field_no_operators(fields[i])),
    decreases fields,
{
    if fields.len() > 0 {
        lemma_no_operators_fields_elem(fields.skip(1));
        assert(forall|j: int| 1 <= j < fields.len() ==> fields[j] == fields.skip(1)[j - 1]);
        if forall|i: int| 0 <= i < fields.len() ==> field_no_operators(fields[i]) {
            assert(forall|i: int|
                0 <= i < fields.skip(1).len() ==> field_no_operators(fields.skip(1)[i])) by {
                assert(forall|i: int|
                    0 <= i < fields.skip(1).len() ==> fields.skip(1)[i] == fields[i + 1]);
            }
        }
    }
}

} // verus!
