//! The typed recipe record and its lossless codec against the JSON tree.
//!
//! [`decode_recipe`] resolves the untagged alternative shapes of the wire
//! format by structural priority and fails fast on any malformed field;
//! [`encode_recipe`] writes a record back, omitting every field that equals
//! its documented default. Durations and probabilities are doubles, held as
//! IEEE 754 bit patterns (seconds, for the duration).

use vstd::prelude::*;

use crate::json::lemma_view_json_pairs;
use crate::json::lemma_view_json_seq;
use crate::json::obj_get;
use crate::json::view_json;
use crate::json::view_json_pairs;
use crate::json::view_json_seq;
use crate::json::JNum;
use crate::json::Json;
use crate::json::JsonV;
use crate::num::bits_of_i64;
use crate::num::bits_of_u64;
use crate::num::f64_bits_from_i64;
use crate::num::f64_bits_from_u64;
use crate::num::HALF_BITS;
use crate::num::ONE_BITS;

verus! {

/// The default of a recipe's `enabled` flag: enabled.
pub fn true_() -> (r: bool)
    ensures
        r == true,
{
    true
}

/// Whether the flag holds its default; such a flag is omitted on encoding.
pub fn is_true(v: &bool) -> (r: bool)
    ensures
        r == *v,
{
    *v
}

/// The default of a single output's `amount`: one unit.
pub fn one_u8() -> (r: u8)
    ensures
        r == 1u8,
{
    1
}

/// Whether the amount holds its default; such an amount is omitted on
/// encoding.
pub fn is_one_u8(v: &u8) -> (r: bool)
    ensures
        r == (*v == 1u8),
{
    *v == 1
}

/// An icon: path, mipmap count and pixel size — present together or not at
/// all.
#[derive(Debug, PartialEq)]
pub struct IconData {
    /// Path of the icon image.
    pub path: String,
    /// Number of mipmaps.
    pub mipmaps: u8,
    /// Pixel size.
    pub size: u32,
}

/// A single output: the wire form with a `result` field.
#[derive(Debug, PartialEq)]
pub struct SingleOutput {
    /// Name of the produced item.
    pub name: String,
    /// Amount produced; defaults to 1.
    pub amount: u8,
    /// Probability of production as a double's bit pattern; defaults to 1.0.
    pub probability: u64,
}

/// One entry of a `results` list.
#[derive(Debug, PartialEq)]
pub struct OutputItem {
    /// Name of the produced item.
    pub name: String,
    /// Amount produced.
    pub amount: u8,
    /// Probability of production as a double's bit pattern; defaults to 1.0.
    pub probability: u64,
    /// Optional kind tag, written to the wire field `type`.
    pub kind: Option<String>,
}

/// The outputs of a recipe written as a `results` list.
#[derive(Debug, PartialEq)]
pub struct ManyOutputs {
    /// The ordered output items.
    pub outputs: Vec<OutputItem>,
}

/// A recipe's output: a single result, or a list of results. An input
/// carrying both resolves to the single form.
#[derive(Debug, PartialEq)]
pub enum Output {
    /// One output with optional count and probability.
    Single(SingleOutput),
    /// An ordered list of outputs.
    Many(ManyOutputs),
}

/// A fluid ingredient: the wire object carries the discriminant `"fluid"`.
#[derive(Debug, PartialEq)]
pub struct Fluid {
    /// Amount consumed.
    pub amount: u32,
    /// Name of the fluid.
    pub name: String,
}

/// An item ingredient: the wire object carries the discriminant `"item"`.
#[derive(Debug, PartialEq)]
pub struct Item {
    /// Amount consumed.
    pub amount: u32,
    /// Name of the item.
    pub name: String,
}

/// One ingredient, in the order the untagged shapes are tried.
#[derive(Debug, PartialEq)]
pub enum Ingredient {
    /// A two-element positional pair: name, then amount.
    SimpleItem(String, u32),
    /// An object with the discriminant `"fluid"`.
    Fluid(Fluid),
    /// An object with the discriminant `"item"`.
    Item(Item),
}

/// The body of a recipe: flag, duration, ingredients and output.
#[derive(Debug, PartialEq)]
pub struct RecipeData {
    /// Whether the recipe starts enabled; defaults to true.
    pub enabled: bool,
    /// Crafting duration in seconds, as a double's bit pattern; defaults
    /// to 0.5 seconds. Written to the wire field `energy_required`.
    pub duration: u64,
    /// The ordered ingredients.
    pub ingredients: Vec<Ingredient>,
    /// The output.
    pub output: Output,
}

/// A recipe body given separately for normal and expensive mode.
#[derive(Debug, PartialEq)]
pub struct RecipeDataWithHardMode {
    /// The normal-mode body.
    pub normal: RecipeData,
    /// The expensive-mode body.
    pub expensive: RecipeData,
}

/// A recipe's body shape: flat, or split by difficulty. A record carrying a
/// top-level `ingredients` field resolves to the flat form.
#[derive(Debug, PartialEq)]
pub enum RecipeDataEnum {
    /// A flat body on the record itself.
    Simple(RecipeData),
    /// `normal`/`expensive` sub-objects, each a flat body.
    WithHardMode(RecipeDataWithHardMode),
}

/// A full recipe record.
#[derive(Debug, PartialEq)]
pub struct Recipe {
    /// The recipe's name.
    pub name: String,
    /// Optional category.
    pub category: Option<String>,
    /// Optional subgroup.
    pub subgroup: Option<String>,
    /// Optional ordering key.
    pub order: Option<String>,
    /// Optional icon group.
    pub icon: Option<IconData>,
    /// The body.
    pub recipe_data: RecipeDataEnum,
}

/// A decoding error; decoding is fail-fast and whole-record.
#[derive(Debug, Clone, Copy, PartialEq, Eq, Structural)]
pub enum DecodeError {
    /// Untagged shape resolution exhausted every candidate.
    NoMatchingShape,
    /// A required field is absent.
    MissingRequiredField,
    /// The record's discriminant does not equal `"recipe"`.
    DiscriminantMismatch,
    /// The icon group is only partially present.
    PartialGroup,
    /// A present field holds a value of the wrong shape, type or range,
    /// or the input is not an object.
    InvalidField,
}

/// Ghost mirror of [`IconData`].
pub ghost struct IconDataV {
    pub path: Seq<char>,
    pub mipmaps: u8,
    pub size: u32,
}

/// Ghost mirror of [`SingleOutput`].
pub ghost struct SingleOutputV {
    pub name: Seq<char>,
    pub amount: u8,
    pub probability: u64,
}

/// Ghost mirror of [`OutputItem`].
pub ghost struct OutputItemV {
    pub name: Seq<char>,
    pub amount: u8,
    pub probability: u64,
    pub kind: Option<Seq<char>>,
}

/// Ghost mirror of [`Output`].
pub ghost enum OutputV {
    Single(SingleOutputV),
    Many(Seq<OutputItemV>),
}

/// Ghost mirror of [`Ingredient`].
pub ghost enum IngredientV {
    SimpleItem(Seq<char>, u32),
    Fluid { amount: u32, name: Seq<char> },
    Item { amount: u32, name: Seq<char> },
}

/// Ghost mirror of [`RecipeData`].
pub ghost struct RecipeDataV {
    pub enabled: bool,
    pub duration: u64,
    pub ingredients: Seq<IngredientV>,
    pub output: OutputV,
}

/// Ghost mirror of [`RecipeDataEnum`].
pub ghost enum RecipeDataEnumV {
    Simple(RecipeDataV),
    WithHardMode { normal: RecipeDataV, expensive: RecipeDataV },
}

/// Ghost mirror of [`Recipe`].
pub ghost struct RecipeV {
    pub name: Seq<char>,
    pub category: Option<Seq<char>>,
    pub subgroup: Option<Seq<char>>,
    pub order: Option<Seq<char>>,
    pub icon: Option<IconDataV>,
    pub recipe_data: RecipeDataEnumV,
}

/// View of an optional string.
pub open spec fn view_opt_string(o: Option<String>) -> Option<Seq<char>> {
    match o {
        Some(s) => Some(s@),
        None => None,
    }
}

impl View for IconData {
    type V = IconDataV;

    open spec fn view(&self) -> IconDataV {
        IconDataV { path: self.path@, mipmaps: self.mipmaps, size: self.size }
    }
}

impl View for SingleOutput {
    type V = SingleOutputV;

    open spec fn view(&self) -> SingleOutputV {
        SingleOutputV { name: self.name@, amount: self.amount, probability: self.probability }
    }
}

impl View for OutputItem {
    type V = OutputItemV;

    open spec fn view(&self) -> OutputItemV {
        OutputItemV {
            name: self.name@,
            amount: self.amount,
            probability: self.probability,
            kind: view_opt_string(self.kind),
        }
    }
}

/// Deep view of a sequence of output items.
pub open spec fn view_output_items(s: Seq<OutputItem>) -> Seq<OutputItemV>
    decreases s,
{
    if s.len() == 0 {
        Seq::empty()
    } else {
        seq![s[0]@] + view_output_items(s.skip(1))
    }
}

impl View for Ingredient {
    type V = IngredientV;

    open spec fn view(&self) -> IngredientV {
        match self {
            Ingredient::SimpleItem(name, amount) => IngredientV::SimpleItem(name@, *amount),
            Ingredient::Fluid(f) => IngredientV::Fluid { amount: f.amount, name: f.name@ },
            Ingredient::Item(it) => IngredientV::Item { amount: it.amount, name: it.name@ },
        }
    }
}

/// Deep view of a sequence of ingredients.
pub open spec fn view_ingredients(s: Seq<Ingredient>) -> Seq<IngredientV>
    decreases s,
{
    if s.len() == 0 {
        Seq::empty()
    } else {
        seq![s[0]@] + view_ingredients(s.skip(1))
    }
}

impl View for Output {
    type V = OutputV;

    open spec fn view(&self) -> OutputV {
        match self {
            Output::Single(s) => OutputV::Single(s@),
            Output::Many(m) => OutputV::Many(view_output_items(m.outputs@)),
        }
    }
}

impl View for RecipeData {
    type V = RecipeDataV;

    open spec fn view(&self) -> RecipeDataV {
        RecipeDataV {
            enabled: self.enabled,
            duration: self.duration,
            ingredients: view_ingredients(self.ingredients@),
            output: self.output@,
        }
    }
}

impl View for RecipeDataEnum {
    type V = RecipeDataEnumV;

    open spec fn view(&self) -> RecipeDataEnumV {
        match self {
            RecipeDataEnum::Simple(d) => RecipeDataEnumV::Simple(d@),
            RecipeDataEnum::WithHardMode(h) => RecipeDataEnumV::WithHardMode {
                normal: h.normal@,
                expensive: h.expensive@,
            },
        }
    }
}

/// View of an optional icon.
pub open spec fn view_opt_icon(o: Option<IconData>) -> Option<IconDataV> {
    match o {
        Some(i) => Some(i@),
        None => None,
    }
}

impl View for Recipe {
    type V = RecipeV;

    open spec fn view(&self) -> RecipeV {
        RecipeV {
            name: self.name@,
            category: view_opt_string(self.category),
            subgroup: view_opt_string(self.subgroup),
            order: view_opt_string(self.order),
            icon: view_opt_icon(self.icon),
            recipe_data: self.recipe_data@,
        }
    }
}

/// The viewed item sequence has the source's length, elementwise.
pub proof fn lemma_view_output_items(s: Seq<OutputItem>)
    ensures
        view_output_items(s).len() == s.len(),
        forall|i: int| 0 <= i < s.len() ==> view_output_items(s)[i] == s[i]@,
    decreases s,
{
    if s.len() > 0 {
        lemma_view_output_items(s.skip(1));
    }
}

/// The viewed ingredient sequence has the source's length, elementwise.
pub proof fn lemma_view_ingredients(s: Seq<Ingredient>)
    ensures
        view_ingredients(s).len() == s.len(),
        forall|i: int| 0 <= i < s.len() ==> view_ingredients(s)[i] == s[i]@,
    decreases s,
{
    if s.len() > 0 {
        lemma_view_ingredients(s.skip(1));
    }
}

/// The double-precision value of a JSON number, as its bit pattern: integers
/// convert to the nearest double, a double is itself.
pub open spec fn jnum_bits(n: JNum) -> u64 {
    match n {
        JNum::PosInt(u) => bits_of_u64(u),
        JNum::NegInt(i) => bits_of_i64(i),
        JNum::Float(b) => b,
    }
}

/// The number as a `u8`: a non-negative integer in range; never a double.
pub open spec fn num_u8(n: JNum) -> Option<u8> {
    match n {
        JNum::PosInt(u) => if u <= u8::MAX as u64 {
            Some(u as u8)
        } else {
            None
        },
        _ => None,
    }
}

/// The number as a `u32`: a non-negative integer in range; never a double.
pub open spec fn num_u32(n: JNum) -> Option<u32> {
    match n {
        JNum::PosInt(u) => if u <= u32::MAX as u64 {
            Some(u as u32)
        } else {
            None
        },
        _ => None,
    }
}

/// An optional string field: absent is fine, present must be a string.
pub open spec fn get_str(p: Seq<(Seq<char>, JsonV)>, k: Seq<char>) -> Result<
    Option<Seq<char>>,
    DecodeError,
> {
    match obj_get(p, k) {
        None => Ok(None),
        Some(JsonV::Str(s)) => Ok(Some(s)),
        Some(_) => Err(DecodeError::InvalidField),
    }
}

/// A boolean field with a default: absent gives the default, present must be
/// a boolean.
pub open spec fn get_bool_or(p: Seq<(Seq<char>, JsonV)>, k: Seq<char>, d: bool) -> Result<
    bool,
    DecodeError,
> {
    match obj_get(p, k) {
        None => Ok(d),
        Some(JsonV::Bool(b)) => Ok(b),
        Some(_) => Err(DecodeError::InvalidField),
    }
}

/// A double field with a default: absent gives the default, present must be
/// a number, whose double value is taken.
pub open spec fn get_bits_or(p: Seq<(Seq<char>, JsonV)>, k: Seq<char>, d: u64) -> Result<
    u64,
    DecodeError,
> {
    match obj_get(p, k) {
        None => Ok(d),
        Some(JsonV::Num(n)) => Ok(jnum_bits(n)),
        Some(_) => Err(DecodeError::InvalidField),
    }
}

/// One ingredient, by structural priority: a two-element `[name, amount]`
/// array; else an object with discriminant `"fluid"`; else one with
/// `"item"`; else no shape matches.
pub open spec fn decode_ingredient_v(j: JsonV) -> Result<IngredientV, DecodeError> {
    match j {
        JsonV::Arr(elems) => if elems.len() == 2 {
            match (elems[0], elems[1]) {
                (JsonV::Str(s), JsonV::Num(n)) => match num_u32(n) {
                    Some(a) => Ok(IngredientV::SimpleItem(s, a)),
                    None => Err(DecodeError::NoMatchingShape),
                },
                _ => Err(DecodeError::NoMatchingShape),
            }
        } else {
            Err(DecodeError::NoMatchingShape)
        },
        JsonV::Obj(p) => match obj_get(p, "type"@) {
            Some(JsonV::Str(t)) => if t == "fluid"@ || t == "item"@ {
                match obj_get(p, "amount"@) {
                    Some(JsonV::Num(n)) => match num_u32(n) {
                        Some(a) => match obj_get(p, "name"@) {
                            Some(JsonV::Str(nm)) => if t == "fluid"@ {
                                Ok(IngredientV::Fluid { amount: a, name: nm })
                            } else {
                                Ok(IngredientV::Item { amount: a, name: nm })
                            },
                            _ => Err(DecodeError::NoMatchingShape),
                        },
                        None => Err(DecodeError::NoMatchingShape),
                    },
                    _ => Err(DecodeError::NoMatchingShape),
                }
            } else {
                Err(DecodeError::NoMatchingShape)
            },
            _ => Err(DecodeError::NoMatchingShape),
        },
        _ => Err(DecodeError::NoMatchingShape),
    }
}

/// The ingredients of a list, in order; the first failure stops the walk.
pub open spec fn decode_ingredients_v(items: Seq<JsonV>) -> Result<Seq<IngredientV>, DecodeError>
    decreases items,
{
    if items.len() == 0 {
        Ok(Seq::empty())
    } else {
        match decode_ingredient_v(items[0]) {
            Err(e) => Err(e),
            Ok(ing) => match decode_ingredients_v(items.skip(1)) {
                Err(e) => Err(e),
                Ok(rest) => Ok(seq![ing] + rest),
            },
        }
    }
}

/// One entry of a `results` list: an object with required `name` and
/// `amount`, optional `probability` (default 1.0) and optional `type` tag.
pub open spec fn decode_output_item_v(j: JsonV) -> Result<OutputItemV, DecodeError> {
    match j {
        JsonV::Obj(p) => match obj_get(p, "name"@) {
            None => Err(DecodeError::MissingRequiredField),
            Some(JsonV::Str(name)) => match obj_get(p, "amount"@) {
                None => Err(DecodeError::MissingRequiredField),
                Some(JsonV::Num(n)) => match num_u8(n) {
                    None => Err(DecodeError::InvalidField),
                    Some(amount) => match get_bits_or(p, "probability"@, ONE_BITS) {
                        Err(e) => Err(e),
                        Ok(probability) => match get_str(p, "type"@) {
                            Err(e) => Err(e),
                            Ok(kind) => Ok(OutputItemV { name, amount, probability, kind }),
                        },
                    },
                },
                Some(_) => Err(DecodeError::InvalidField),
            },
            Some(_) => Err(DecodeError::InvalidField),
        },
        _ => Err(DecodeError::InvalidField),
    }
}

/// The entries of a `results` list, in order.
pub open spec fn decode_output_items_v(items: Seq<JsonV>) -> Result<Seq<OutputItemV>, DecodeError>
    decreases items,
{
    if items.len() == 0 {
        Ok(Seq::empty())
    } else {
        match decode_output_item_v(items[0]) {
            Err(e) => Err(e),
            Ok(it) => match decode_output_items_v(items.skip(1)) {
                Err(e) => Err(e),
                Ok(rest) => Ok(seq![it] + rest),
            },
        }
    }
}

/// The output, by structural priority: a string `result` field selects the
/// single form (a record carrying both forms resolves to it); else a
/// `results` list selects the many form; else no shape matches.
pub open spec fn decode_output_v(p: Seq<(Seq<char>, JsonV)>) -> Result<OutputV, DecodeError> {
    match obj_get(p, "result"@) {
        Some(JsonV::Str(name)) => {
            let amount_r = match obj_get(p, "result_count"@) {
                None => Ok(1u8),
                Some(JsonV::Num(n)) => match num_u8(n) {
                    Some(a) => Ok(a),
                    None => Err(DecodeError::InvalidField),
                },
                Some(_) => Err(DecodeError::InvalidField),
            };
            match amount_r {
                Err(e) => Err(e),
                Ok(amount) => match get_bits_or(p, "result_probability"@, ONE_BITS) {
                    Err(e) => Err(e),
                    Ok(probability) => Ok(
                        OutputV::Single(SingleOutputV { name, amount, probability }),
                    ),
                },
            }
        },
        _ => match obj_get(p, "results"@) {
            Some(JsonV::Arr(items)) => match decode_output_items_v(items) {
                Ok(its) => Ok(OutputV::Many(its)),
                Err(e) => Err(e),
            },
            _ => Err(DecodeError::NoMatchingShape),
        },
    }
}

/// A flat recipe body read off an object's entries: `enabled` (default
/// true), `energy_required` seconds (default 0.5), required `ingredients`
/// list, and the output.
pub open spec fn decode_data_v(p: Seq<(Seq<char>, JsonV)>) -> Result<RecipeDataV, DecodeError> {
    match get_bool_or(p, "enabled"@, true) {
        Err(e) => Err(e),
        Ok(enabled) => match get_bits_or(p, "energy_required"@, HALF_BITS) {
            Err(e) => Err(e),
            Ok(duration) => match obj_get(p, "ingredients"@) {
                None => Err(DecodeError::MissingRequiredField),
                Some(JsonV::Arr(items)) => match decode_ingredients_v(items) {
                    Err(e) => Err(e),
                    Ok(ingredients) => match decode_output_v(p) {
                        Err(e) => Err(e),
                        Ok(output) => Ok(RecipeDataV { enabled, duration, ingredients, output }),
                    },
                },
                Some(_) => Err(DecodeError::InvalidField),
            },
        },
    }
}

/// The icon group: present only when all three of its fields are; partial
/// presence is an error, not a partial icon.
pub open spec fn decode_icon_v(p: Seq<(Seq<char>, JsonV)>) -> Result<
    Option<IconDataV>,
    DecodeError,
> {
    let i0 = obj_get(p, "icon"@);
    let i1 = obj_get(p, "icon_mipmaps"@);
    let i2 = obj_get(p, "icon_size"@);
    if i0 is None && i1 is None && i2 is None {
        Ok(None)
    } else if i0 is Some && i1 is Some && i2 is Some {
        match (i0, i1, i2) {
            (Some(JsonV::Str(path)), Some(JsonV::Num(nm)), Some(JsonV::Num(ns))) => match (
                num_u8(nm),
                num_u32(ns),
            ) {
                (Some(mipmaps), Some(size)) => Ok(Some(IconDataV { path, mipmaps, size })),
                _ => Err(DecodeError::InvalidField),
            },
            _ => Err(DecodeError::InvalidField),
        }
    } else {
        Err(DecodeError::PartialGroup)
    }
}

/// The body shape, by structural priority: a top-level `ingredients` field
/// selects the flat form; else `normal` and `expensive` sub-objects, each a
/// flat body; else no shape matches.
pub open spec fn decode_shape_v(p: Seq<(Seq<char>, JsonV)>) -> Result<
    RecipeDataEnumV,
    DecodeError,
> {
    if obj_get(p, "ingredients"@) is Some {
        match decode_data_v(p) {
            Ok(d) => Ok(RecipeDataEnumV::Simple(d)),
            Err(e) => Err(e),
        }
    } else {
        match (obj_get(p, "normal"@), obj_get(p, "expensive"@)) {
            (Some(JsonV::Obj(pn)), Some(JsonV::Obj(pe))) => match decode_data_v(pn) {
                Err(e) => Err(e),
                Ok(normal) => match decode_data_v(pe) {
                    Err(e) => Err(e),
                    Ok(expensive) => Ok(RecipeDataEnumV::WithHardMode { normal, expensive }),
                },
            },
            _ => Err(DecodeError::NoMatchingShape),
        }
    }
}

/// Decoding of a full recipe record: the input must be an object whose
/// `type` literally equals `"recipe"`; `name` is required; `category`,
/// `subgroup` and `order` are optional strings; the icon group is
/// all-or-nothing; the body resolves by [`decode_shape_v`]. Decoding is
/// fail-fast: the first malformed field aborts the whole record, in the
/// order type, name, category, subgroup, order, icon, body.
pub open spec fn decode_recipe_v(j: JsonV) -> Result<RecipeV, DecodeError> {
    match j {
        JsonV::Obj(p) => match obj_get(p, "type"@) {
            None => Err(DecodeError::MissingRequiredField),
            Some(JsonV::Str(t)) => if t != "recipe"@ {
                Err(DecodeError::DiscriminantMismatch)
            } else {
                match obj_get(p, "name"@) {
                    None => Err(DecodeError::MissingRequiredField),
                    Some(JsonV::Str(name)) => match get_str(p, "category"@) {
                        Err(e) => Err(e),
                        Ok(category) => match get_str(p, "subgroup"@) {
                            Err(e) => Err(e),
                            Ok(subgroup) => match get_str(p, "order"@) {
                                Err(e) => Err(e),
                                Ok(order) => match decode_icon_v(p) {
                                    Err(e) => Err(e),
                                    Ok(icon) => match decode_shape_v(p) {
                                        Err(e) => Err(e),
                                        Ok(recipe_data) => Ok(
                                            RecipeV {
                                                name,
                                                category,
                                                subgroup,
                                                order,
                                                icon,
                                                recipe_data,
                                            },
                                        ),
                                    },
                                },
                            },
                        },
                    },
                    Some(_) => Err(DecodeError::InvalidField),
                }
            },
            Some(_) => Err(DecodeError::DiscriminantMismatch),
        },
        _ => Err(DecodeError::InvalidField),
    }
}

/// Last index carrying the key in an object's entries, or -1.
pub open spec fn last_index_of_key(s: Seq<(Seq<char>, JsonV)>, k: Seq<char>) -> int
    decreases s,
{
    if s.len() == 0 {
        -1
    } else {
        let r = last_index_of_key(s.skip(1), k);
        if r >= 0 {
            r + 1
        } else if s[0].0 == k {
            0
        } else {
            -1
        }
    }
}

/// [`obj_get`] returns the value at the last index carrying the key, and
/// nothing where no entry does.
pub proof fn lemma_obj_get(s: Seq<(Seq<char>, JsonV)>, k: Seq<char>)
    ensures
        last_index_of_key(s, k) == -1 ==> obj_get(s, k) is None && forall|j: int|
            0 <= j < s.len() ==> s[j].0 != k,
        last_index_of_key(s, k) >= 0 ==> {
            let i = last_index_of_key(s, k);
            &&& i < s.len()
            &&& s[i].0 == k
            &&& obj_get(s, k) == Some(s[i].1)
            &&& forall|t: int| i < t < s.len() ==> s[t].0 != k
        },
    decreases s,
{
    if s.len() > 0 {
        lemma_obj_get(s.skip(1), k);
        assert(forall|j: int| 1 <= j < s.len() ==> s[j] == s.skip(1)[j - 1]);
    }
}

/// The entry under the key, if any; of repeated keys the last one wins.
fn obj_get_exec<'a>(p: &'a Vec<(String, Json)>, k: &String) -> (r: Option<&'a Json>)
    ensures
        match r {
            Some(v) => obj_get(view_json_pairs(p@), k@) == Some(view_json(*v)),
            None => obj_get(view_json_pairs(p@), k@) is None,
        },
{
    let mut found: Option<usize> = None;
    let n = p.len();
    for j in 0..n
        invariant
            n == p.len(),
            match found {
                Some(m) => m < j && p@[m as int].0@ == k@ && (forall|t: int|
                    m < t < j ==> p@[t].0@ != k@),
                None => forall|t: int| 0 <= t < j ==> p@[t].0@ != k@,
            },
    {
        let hit = String::eq(&p[j].0, k);
        if hit {
            found = Some(j);
        }
    }
    proof {
        lemma_view_json_pairs(p@);
        lemma_obj_get(view_json_pairs(p@), k@);
        let s = view_json_pairs(p@);
        let i = last_index_of_key(s, k@);
        match found {
            Some(m) => {
                assert(s[m as int].0 == k@);
                assert(i != -1);
                if i < m as int {
                    assert(s[m as int].0 != k@);
                    assert(false);
                }
                if i > m as int {
                    assert(p@[i].0@ != k@);
                    assert(false);
                }
            },
            None => {
                if i >= 0 {
                    assert(p@[i].0@ != k@);
                    assert(false);
                }
            },
        }
    }
    match found {
        Some(m) => Some(&p[m].1),
        None => None,
    }
}

/// The double value of a JSON number, as its bit pattern.
fn jnum_bits_exec(n: &JNum) -> (r: u64)
    ensures
        r == jnum_bits(*n),
{
    match n {
        JNum::PosInt(u) => f64_bits_from_u64(*u),
        JNum::NegInt(i) => f64_bits_from_i64(*i),
        JNum::Float(b) => *b,
    }
}

/// The number as a `u8`, where it is an integer in range.
fn num_u8_exec(n: &JNum) -> (r: Option<u8>)
    ensures
        r == num_u8(*n),
{
    match n {
        JNum::PosInt(u) => if *u <= u8::MAX as u64 {
            Some(*u as u8)
        } else {
            None
        },
        _ => None,
    }
}

/// The number as a `u32`, where it is an integer in range.
fn num_u32_exec(n: &JNum) -> (r: Option<u32>)
    ensures
        r == num_u32(*n),
{
    match n {
        JNum::PosInt(u) => if *u <= u32::MAX as u64 {
            Some(*u as u32)
        } else {
            None
        },
        _ => None,
    }
}

/// An optional string field.
fn get_str_exec(p: &Vec<(String, Json)>, k: &String) -> (r: Result<Option<String>, DecodeError>)
    ensures
        match r {
            Ok(o) => get_str(view_json_pairs(p@), k@) == Ok::<_, DecodeError>(view_opt_string(o)),
            Err(e) => get_str(view_json_pairs(p@), k@) == Err::<Option<Seq<char>>, _>(e),
        },
{
    match obj_get_exec(p, k) {
        None => Ok(None),
        Some(Json::Str(s)) => Ok(Some(s.clone())),
        Some(_) => Err(DecodeError::InvalidField),
    }
}

/// A boolean field with a default.
fn get_bool_or_exec(p: &Vec<(String, Json)>, k: &String, d: bool) -> (r: Result<bool, DecodeError>)
    ensures
        match r {
            Ok(b) => get_bool_or(view_json_pairs(p@), k@, d) == Ok::<_, DecodeError>(b),
            Err(e) => get_bool_or(view_json_pairs(p@), k@, d) == Err::<bool, _>(e),
        },
{
    match obj_get_exec(p, k) {
        None => Ok(d),
        Some(Json::Bool(b)) => Ok(*b),
        Some(_) => Err(DecodeError::InvalidField),
    }
}

/// A double field with a default.
fn get_bits_or_exec(p: &Vec<(String, Json)>, k: &String, d: u64) -> (r: Result<u64, DecodeError>)
    ensures
        match r {
            Ok(b) => get_bits_or(view_json_pairs(p@), k@, d) == Ok::<_, DecodeError>(b),
            Err(e) => get_bits_or(view_json_pairs(p@), k@, d) == Err::<u64, _>(e),
        },
{
    match obj_get_exec(p, k) {
        None => Ok(d),
        Some(Json::Num(n)) => Ok(jnum_bits_exec(n)),
        Some(_) => Err(DecodeError::InvalidField),
    }
}

/// One ingredient, by structural priority.
fn decode_ingredient_exec(j: &Json) -> (r: Result<Ingredient, DecodeError>)
    ensures
        match r {
            Ok(ing) => decode_ingredient_v(j@) == Ok::<_, DecodeError>(ing@),
            Err(e) => decode_ingredient_v(j@) == Err::<IngredientV, _>(e),
        },
{
    match j {
        Json::Arr(elems) => {
            proof {
                lemma_view_json_seq(elems@);
            }
            if elems.len() == 2 {
                match (&elems[0], &elems[1]) {
                    (Json::Str(s), Json::Num(n)) => match num_u32_exec(n) {
                        Some(a) => Ok(Ingredient::SimpleItem(s.clone(), a)),
                        None => Err(DecodeError::NoMatchingShape),
                    },
                    _ => Err(DecodeError::NoMatchingShape),
                }
            } else {
                Err(DecodeError::NoMatchingShape)
            }
        },
        Json::Obj(p) => match obj_get_exec(p, &"type".to_owned()) {
            Some(Json::Str(t)) => {
                let is_fluid = String::eq(t, &"fluid".to_owned());
                let is_item = String::eq(t, &"item".to_owned());
                if is_fluid || is_item {
                    match obj_get_exec(p, &"amount".to_owned()) {
                        Some(Json::Num(n)) => match num_u32_exec(n) {
                            Some(a) => match obj_get_exec(p, &"name".to_owned()) {
                                Some(Json::Str(nm)) => if is_fluid {
                                    Ok(Ingredient::Fluid(Fluid { amount: a, name: nm.clone() }))
                                } else {
                                    Ok(Ingredient::Item(Item { amount: a, name: nm.clone() }))
                                },
                                _ => Err(DecodeError::NoMatchingShape),
                            },
                            None => Err(DecodeError::NoMatchingShape),
                        },
                        _ => Err(DecodeError::NoMatchingShape),
                    }
                } else {
                    Err(DecodeError::NoMatchingShape)
                }
            },
            _ => Err(DecodeError::NoMatchingShape),
        },
        _ => Err(DecodeError::NoMatchingShape),
    }
}

/// The ingredients of a list from `i` on, in order.
fn decode_ingredients_exec(items: &Vec<Json>, i: usize) -> (r: Result<Vec<Ingredient>, DecodeError>)
    requires
        i <= items.len(),
    ensures
        match r {
            Ok(out) => decode_ingredients_v(view_json_seq(items@).skip(i as int)) == Ok::<
                _,
                DecodeError,
            >(view_ingredients(out@)),
            Err(e) => decode_ingredients_v(view_json_seq(items@).skip(i as int)) == Err::<
                Seq<IngredientV>,
                _,
            >(e),
        },
    decreases items@.len() - i,
{
    proof {
        lemma_view_json_seq(items@);
    }
    if i == items.len() {
        return Ok(Vec::new());
    }
    let ghost vs = view_json_seq(items@);
    proof {
        assert(vs.skip(i as int)[0] == vs[i as int]);
        assert(vs.skip(i as int).skip(1) =~= vs.skip(i as int + 1));
    }
    match decode_ingredient_exec(&items[i]) {
        Err(e) => Err(e),
        Ok(ing) => match decode_ingredients_exec(items, i + 1) {
            Err(e) => Err(e),
            Ok(mut rest) => {
                let ghost rest0 = rest@;
                rest.insert(0, ing);
                proof {
                    lemma_view_ingredients(rest0);
                    lemma_view_ingredients(rest@);
                    assert(rest@ =~= seq![ing] + rest0);
                    assert(view_ingredients(rest@) =~= seq![ing@] + view_ingredients(rest0));
                }
                Ok(rest)
            },
        },
    }
}

/// One entry of a `results` list.
fn decode_output_item_exec(j: &Json) -> (r: Result<OutputItem, DecodeError>)
    ensures
        match r {
            Ok(it) => decode_output_item_v(j@) == Ok::<_, DecodeError>(it@),
            Err(e) => decode_output_item_v(j@) == Err::<OutputItemV, _>(e),
        },
{
    match j {
        Json::Obj(p) => match obj_get_exec(p, &"name".to_owned()) {
            None => Err(DecodeError::MissingRequiredField),
            Some(Json::Str(name)) => match obj_get_exec(p, &"amount".to_owned()) {
                None => Err(DecodeError::MissingRequiredField),
                Some(Json::Num(n)) => match num_u8_exec(n) {
                    None => Err(DecodeError::InvalidField),
                    Some(amount) => match get_bits_or_exec(p, &"probability".to_owned(), ONE_BITS) {
                        Err(e) => Err(e),
                        Ok(probability) => match get_str_exec(p, &"type".to_owned()) {
                            Err(e) => Err(e),
                            Ok(kind) => Ok(
                                OutputItem { name: name.clone(), amount, probability, kind },
                            ),
                        },
                    },
                },
                Some(_) => Err(DecodeError::InvalidField),
            },
            Some(_) => Err(DecodeError::InvalidField),
        },
        _ => Err(DecodeError::InvalidField),
    }
}

/// The entries of a `results` list from `i` on, in order.
fn decode_output_items_exec(items: &Vec<Json>, i: usize) -> (r: Result<Vec<OutputItem>, DecodeError>)
    requires
        i <= items.len(),
    ensures
        match r {
            Ok(out) => decode_output_items_v(view_json_seq(items@).skip(i as int)) == Ok::<
                _,
                DecodeError,
            >(view_output_items(out@)),
            Err(e) => decode_output_items_v(view_json_seq(items@).skip(i as int)) == Err::<
                Seq<OutputItemV>,
                _,
            >(e),
        },
    decreases items@.len() - i,
{
    proof {
        lemma_view_json_seq(items@);
    }
    if i == items.len() {
        return Ok(Vec::new());
    }
    let ghost vs = view_json_seq(items@);
    proof {
        assert(vs.skip(i as int)[0] == vs[i as int]);
        assert(vs.skip(i as int).skip(1) =~= vs.skip(i as int + 1));
    }
    match decode_output_item_exec(&items[i]) {
        Err(e) => Err(e),
        Ok(it) => match decode_output_items_exec(items, i + 1) {
            Err(e) => Err(e),
            Ok(mut rest) => {
                let ghost rest0 = rest@;
                rest.insert(0, it);
                proof {
                    lemma_view_output_items(rest0);
                    lemma_view_output_items(rest@);
                    assert(rest@ =~= seq![it] + rest0);
                    assert(view_output_items(rest@) =~= seq![it@] + view_output_items(rest0));
                }
                Ok(rest)
            },
        },
    }
}

/// The output, by structural priority.
fn decode_output_exec(p: &Vec<(String, Json)>) -> (r: Result<Output, DecodeError>)
    ensures
        match r {
            Ok(o) => decode_output_v(view_json_pairs(p@)) == Ok::<_, DecodeError>(o@),
            Err(e) => decode_output_v(view_json_pairs(p@)) == Err::<OutputV, _>(e),
        },
{
    match obj_get_exec(p, &"result".to_owned()) {
        Some(Json::Str(name)) => {
            let amount = match obj_get_exec(p, &"result_count".to_owned()) {
                None => 1u8,
                Some(Json::Num(n)) => match num_u8_exec(n) {
                    Some(a) => a,
                    None => {
                        return Err(DecodeError::InvalidField);
                    },
                },
                Some(_) => {
                    return Err(DecodeError::InvalidField);
                },
            };
            match get_bits_or_exec(p, &"result_probability".to_owned(), ONE_BITS) {
                Err(e) => Err(e),
                Ok(probability) => Ok(
                    Output::Single(SingleOutput { name: name.clone(), amount, probability }),
                ),
            }
        },
        _ => match obj_get_exec(p, &"results".to_owned()) {
            Some(Json::Arr(items)) => {
                proof {
                    assert(view_json_seq(items@).skip(0) =~= view_json_seq(items@));
                }
                match decode_output_items_exec(items, 0) {
                    Ok(its) => Ok(Output::Many(ManyOutputs { outputs: its })),
                    Err(e) => Err(e),
                }
            },
            _ => Err(DecodeError::NoMatchingShape),
        },
    }
}

/// A flat recipe body read off an object's entries.
fn decode_data_exec(p: &Vec<(String, Json)>) -> (r: Result<RecipeData, DecodeError>)
    ensures
        match r {
            Ok(d) => decode_data_v(view_json_pairs(p@)) == Ok::<_, DecodeError>(d@),
            Err(e) => decode_data_v(view_json_pairs(p@)) == Err::<RecipeDataV, _>(e),
        },
{
    match get_bool_or_exec(p, &"enabled".to_owned(), true) {
        Err(e) => Err(e),
        Ok(enabled) => match get_bits_or_exec(p, &"energy_required".to_owned(), HALF_BITS) {
            Err(e) => Err(e),
            Ok(duration) => match obj_get_exec(p, &"ingredients".to_owned()) {
                None => Err(DecodeError::MissingRequiredField),
                Some(Json::Arr(items)) => {
                    proof {
                        assert(view_json_seq(items@).skip(0) =~= view_json_seq(items@));
                    }
                    match decode_ingredients_exec(items, 0) {
                        Err(e) => Err(e),
                        Ok(ingredients) => match decode_output_exec(p) {
                            Err(e) => Err(e),
                            Ok(output) => Ok(RecipeData { enabled, duration, ingredients, output }),
                        },
                    }
                },
                Some(_) => Err(DecodeError::InvalidField),
            },
        },
    }
}

/// The icon group, all-or-nothing.
fn decode_icon_exec(p: &Vec<(String, Json)>) -> (r: Result<Option<IconData>, DecodeError>)
    ensures
        match r {
            Ok(o) => decode_icon_v(view_json_pairs(p@)) == Ok::<_, DecodeError>(view_opt_icon(o)),
            Err(e) => decode_icon_v(view_json_pairs(p@)) == Err::<Option<IconDataV>, _>(e),
        },
{
    let i0 = obj_get_exec(p, &"icon".to_owned());
    let i1 = obj_get_exec(p, &"icon_mipmaps".to_owned());
    let i2 = obj_get_exec(p, &"icon_size".to_owned());
    match (i0, i1, i2) {
        (None, None, None) => Ok(None),
        (Some(v0), Some(v1), Some(v2)) => match (v0, v1, v2) {
            (Json::Str(path), Json::Num(nm), Json::Num(ns)) => match (
                num_u8_exec(nm),
                num_u32_exec(ns),
            ) {
                (Some(mipmaps), Some(size)) => Ok(
                    Some(IconData { path: path.clone(), mipmaps, size }),
                ),
                _ => Err(DecodeError::InvalidField),
            },
            _ => Err(DecodeError::InvalidField),
        },
        _ => Err(DecodeError::PartialGroup),
    }
}

/// The body shape, by structural priority.
fn decode_shape_exec(p: &Vec<(String, Json)>) -> (r: Result<RecipeDataEnum, DecodeError>)
    ensures
        match r {
            Ok(d) => decode_shape_v(view_json_pairs(p@)) == Ok::<_, DecodeError>(d@),
            Err(e) => decode_shape_v(view_json_pairs(p@)) == Err::<RecipeDataEnumV, _>(e),
        },
{
    let has_ingredients = match obj_get_exec(p, &"ingredients".to_owned()) {
        Some(_) => true,
        None => false,
    };
    if has_ingredients {
        match decode_data_exec(p) {
            Ok(d) => Ok(RecipeDataEnum::Simple(d)),
            Err(e) => Err(e),
        }
    } else {
        match (obj_get_exec(p, &"normal".to_owned()), obj_get_exec(p, &"expensive".to_owned())) {
            (Some(Json::Obj(pn)), Some(Json::Obj(pe))) => match decode_data_exec(pn) {
                Err(e) => Err(e),
                Ok(normal) => match decode_data_exec(pe) {
                    Err(e) => Err(e),
                    Ok(expensive) => Ok(
                        RecipeDataEnum::WithHardMode(RecipeDataWithHardMode { normal, expensive }),
                    ),
                },
            },
            _ => Err(DecodeError::NoMatchingShape),
        }
    }
}

/// Decodes a JSON tree into a recipe record, exactly as [`decode_recipe_v`]
/// describes: fail-fast, whole-record, with untagged shapes resolved by
/// structural priority.
pub fn decode_recipe(j: &Json) -> (r: Result<Recipe, DecodeError>)
    ensures
        match r {
            Ok(rec) => decode_recipe_v(j@) == Ok::<_, DecodeError>(rec@),
            Err(e) => decode_recipe_v(j@) == Err::<RecipeV, _>(e),
        },
{
    match j {
        Json::Obj(p) => match obj_get_exec(p, &"type".to_owned()) {
            None => Err(DecodeError::MissingRequiredField),
            Some(Json::Str(t)) => {
                let is_recipe = String::eq(t, &"recipe".to_owned());
                if !is_recipe {
                    Err(DecodeError::DiscriminantMismatch)
                } else {
                    match obj_get_exec(p, &"name".to_owned()) {
                        None => Err(DecodeError::MissingRequiredField),
                        Some(Json::Str(name)) => match get_str_exec(p, &"category".to_owned()) {
                            Err(e) => Err(e),
                            Ok(category) => match get_str_exec(p, &"subgroup".to_owned()) {
                                Err(e) => Err(e),
                                Ok(subgroup) => match get_str_exec(p, &"order".to_owned()) {
                                    Err(e) => Err(e),
                                    Ok(order) => match decode_icon_exec(p) {
                                        Err(e) => Err(e),
                                        Ok(icon) => match decode_shape_exec(p) {
                                            Err(e) => Err(e),
                                            Ok(recipe_data) => Ok(
                                                Recipe {
                                                    name: name.clone(),
                                                    category,
                                                    subgroup,
                                                    order,
                                                    icon,
                                                    recipe_data,
                                                },
                                            ),
                                        },
                                    },
                                },
                            },
                        },
                        Some(_) => Err(DecodeError::InvalidField),
                    }
                }
            },
            Some(_) => Err(DecodeError::DiscriminantMismatch),
        },
        _ => Err(DecodeError::InvalidField),
    }
}

/// Encoding of one ingredient: the pair form for a simple item, an object
/// with its discriminant for a fluid or item.
pub open spec fn encode_ingredient_v(ing: IngredientV) -> JsonV {
    match ing {
        IngredientV::SimpleItem(name, amount) => JsonV::Arr(
            seq![JsonV::Str(name), JsonV::Num(JNum::PosInt(amount as u64))],
        ),
        IngredientV::Fluid { amount, name } => JsonV::Obj(
            seq![
                ("amount"@, JsonV::Num(JNum::PosInt(amount as u64))),
                ("name"@, JsonV::Str(name)),
                ("type"@, JsonV::Str("fluid"@)),
            ],
        ),
        IngredientV::Item { amount, name } => JsonV::Obj(
            seq![
                ("amount"@, JsonV::Num(JNum::PosInt(amount as u64))),
                ("name"@, JsonV::Str(name)),
                ("type"@, JsonV::Str("item"@)),
            ],
        ),
    }
}

/// Encoding of an ingredient list, in order.
pub open spec fn encode_ingredients_v(s: Seq<IngredientV>) -> Seq<JsonV>
    decreases s,
{
    if s.len() == 0 {
        Seq::empty()
    } else {
        seq![encode_ingredient_v(s[0])] + encode_ingredients_v(s.skip(1))
    }
}

/// Encoding of one `results` entry: `name` and `amount` always, the
/// probability only off its default, the kind tag only when present.
pub open spec fn encode_output_item_v(it: OutputItemV) -> JsonV {
    let s0 = seq![
        ("name"@, JsonV::Str(it.name)),
        ("amount"@, JsonV::Num(JNum::PosInt(it.amount as u64))),
    ];
    let s1 = if it.probability == ONE_BITS {
        s0
    } else {
        s0.push(("probability"@, JsonV::Num(JNum::Float(it.probability))))
    };
    let s2 = match it.kind {
        None => s1,
        Some(k) => s1.push(("type"@, JsonV::Str(k))),
    };
    JsonV::Obj(s2)
}

/// Encoding of a `results` list, in order.
pub open spec fn encode_output_items_v(s: Seq<OutputItemV>) -> Seq<JsonV>
    decreases s,
{
    if s.len() == 0 {
        Seq::empty()
    } else {
        seq![encode_output_item_v(s[0])] + encode_output_items_v(s.skip(1))
    }
}

/// Appends an output's fields: the single form writes `result` with count
/// and probability off their defaults; the many form writes `results`.
pub open spec fn encode_output_pairs_v(o: OutputV, acc: Seq<(Seq<char>, JsonV)>) -> Seq<
    (Seq<char>, JsonV),
> {
    match o {
        OutputV::Single(s) => {
            let a0 = acc.push(("result"@, JsonV::Str(s.name)));
            let a1 = if s.amount == 1 {
                a0
            } else {
                a0.push(("result_count"@, JsonV::Num(JNum::PosInt(s.amount as u64))))
            };
            if s.probability == ONE_BITS {
                a1
            } else {
                a1.push(("result_probability"@, JsonV::Num(JNum::Float(s.probability))))
            }
        },
        OutputV::Many(items) => acc.push(("results"@, JsonV::Arr(encode_output_items_v(items)))),
    }
}

/// Appends a flat body's fields: `enabled` and `energy_required` only off
/// their defaults, then the ingredients, then the output.
pub open spec fn encode_data_pairs_v(d: RecipeDataV, acc: Seq<(Seq<char>, JsonV)>) -> Seq<
    (Seq<char>, JsonV),
> {
    let a0 = if d.enabled {
        acc
    } else {
        acc.push(("enabled"@, JsonV::Bool(false)))
    };
    let a1 = if d.duration == HALF_BITS {
        a0
    } else {
        a0.push(("energy_required"@, JsonV::Num(JNum::Float(d.duration))))
    };
    let a2 = a1.push(("ingredients"@, JsonV::Arr(encode_ingredients_v(d.ingredients))));
    encode_output_pairs_v(d.output, a2)
}

/// Encoding of a full recipe record: name and discriminant always, the
/// optional strings and the icon group when present, then the body — flat on
/// the record itself, or as `normal`/`expensive` sub-objects.
pub open spec fn encode_recipe_v(r: RecipeV) -> JsonV {
    let a0 = seq![("name"@, JsonV::Str(r.name)), ("type"@, JsonV::Str("recipe"@))];
    let a1 = match r.category {
        None => a0,
        Some(c) => a0.push(("category"@, JsonV::Str(c))),
    };
    let a2 = match r.subgroup {
        None => a1,
        Some(c) => a1.push(("subgroup"@, JsonV::Str(c))),
    };
    let a3 = match r.order {
        None => a2,
        Some(c) => a2.push(("order"@, JsonV::Str(c))),
    };
    let a4 = match r.icon {
        None => a3,
        Some(ic) => a3.push(("icon"@, JsonV::Str(ic.path))).push(
            ("icon_mipmaps"@, JsonV::Num(JNum::PosInt(ic.mipmaps as u64))),
        ).push(("icon_size"@, JsonV::Num(JNum::PosInt(ic.size as u64)))),
    };
    let a5 = match r.recipe_data {
        RecipeDataEnumV::Simple(d) => encode_data_pairs_v(d, a4),
        RecipeDataEnumV::WithHardMode { normal, expensive } => a4.push(
            ("normal"@, JsonV::Obj(encode_data_pairs_v(normal, Seq::empty()))),
        ).push(("expensive"@, JsonV::Obj(encode_data_pairs_v(expensive, Seq::empty())))),
    };
    JsonV::Obj(a5)
}

/// Pushing an entry commutes with taking the deep view.
pub proof fn lemma_view_json_pairs_push(s: Seq<(String, Json)>, p: (String, Json))
    ensures
        view_json_pairs(s.push(p)) =~= view_json_pairs(s).push((p.0@, view_json(p.1))),
{
    lemma_view_json_pairs(s);
    lemma_view_json_pairs(s.push(p));
}

/// Encodes one ingredient.
fn encode_ingredient_exec(ing: &Ingredient) -> (r: Json)
    ensures
        r@ == encode_ingredient_v(ing@),
{
    match ing {
        Ingredient::SimpleItem(name, amount) => {
            let mut v: Vec<Json> = Vec::new();
            v.push(Json::Str(name.clone()));
            v.push(Json::Num(JNum::PosInt(*amount as u64)));
            proof {
                lemma_view_json_seq(v@);
                assert(view_json_seq(v@) =~= seq![
                    JsonV::Str(name@),
                    JsonV::Num(JNum::PosInt(*amount as u64)),
                ]);
            }
            Json::Arr(v)
        },
        Ingredient::Fluid(f) => {
            let mut v: Vec<(String, Json)> = Vec::new();
            v.push(("amount".to_owned(), Json::Num(JNum::PosInt(f.amount as u64))));
            v.push(("name".to_owned(), Json::Str(f.name.clone())));
            v.push(("type".to_owned(), Json::Str("fluid".to_owned())));
            proof {
                lemma_view_json_pairs(v@);
                assert(view_json_pairs(v@) =~= seq![
                    ("amount"@, JsonV::Num(JNum::PosInt(f.amount as u64))),
                    ("name"@, JsonV::Str(f.name@)),
                    ("type"@, JsonV::Str("fluid"@)),
                ]);
            }
            Json::Obj(v)
        },
        Ingredient::Item(it) => {
            let mut v: Vec<(String, Json)> = Vec::new();
            v.push(("amount".to_owned(), Json::Num(JNum::PosInt(it.amount as u64))));
            v.push(("name".to_owned(), Json::Str(it.name.clone())));
            v.push(("type".to_owned(), Json::Str("item".to_owned())));
            proof {
                lemma_view_json_pairs(v@);
                assert(view_json_pairs(v@) =~= seq![
                    ("amount"@, JsonV::Num(JNum::PosInt(it.amount as u64))),
                    ("name"@, JsonV::Str(it.name@)),
                    ("type"@, JsonV::Str("item"@)),
                ]);
            }
            Json::Obj(v)
        },
    }
}

/// Encodes an ingredient list from `i` on.
fn encode_ingredients_exec(items: &Vec<Ingredient>, i: usize) -> (r: Vec<Json>)
    requires
        i <= items.len(),
    ensures
        view_json_seq(r@) == encode_ingredients_v(view_ingredients(items@).skip(i as int)),
    decreases items@.len() - i,
{
    proof {
        lemma_view_ingredients(items@);
    }
    if i == items.len() {
        return Vec::new();
    }
    let ghost vs = view_ingredients(items@);
    proof {
        assert(vs.skip(i as int)[0] == vs[i as int]);
        assert(vs.skip(i as int).skip(1) =~= vs.skip(i as int + 1));
    }
    let head = encode_ingredient_exec(&items[i]);
    let mut rest = encode_ingredients_exec(items, i + 1);
    let ghost rest0 = rest@;
    rest.insert(0, head);
    proof {
        lemma_view_json_seq(rest0);
        lemma_view_json_seq(rest@);
        assert(rest@ =~= seq![head] + rest0);
        assert(view_json_seq(rest@) =~= seq![view_json(head)] + view_json_seq(rest0));
    }
    rest
}

/// Encodes one `results` entry.
fn encode_output_item_exec(it: &OutputItem) -> (r: Json)
    ensures
        r@ == encode_output_item_v(it@),
{
    let mut v: Vec<(String, Json)> = Vec::new();
    v.push(("name".to_owned(), Json::Str(it.name.clone())));
    v.push(("amount".to_owned(), Json::Num(JNum::PosInt(it.amount as u64))));
    proof {
        lemma_view_json_pairs(v@);
        assert(view_json_pairs(v@) =~= seq![
            ("name"@, JsonV::Str(it.name@)),
            ("amount"@, JsonV::Num(JNum::PosInt(it.amount as u64))),
        ]);
    }
    if it.probability != ONE_BITS {
        let ghost prev = v@;
        v.push(("probability".to_owned(), Json::Num(JNum::Float(it.probability))));
        proof {
            lemma_view_json_pairs_push(prev, v@.last());
        }
    }
    match &it.kind {
        Some(k) => {
            let ghost prev = v@;
            v.push(("type".to_owned(), Json::Str(k.clone())));
            proof {
                lemma_view_json_pairs_push(prev, v@.last());
            }
        },
        None => (),
    }
    Json::Obj(v)
}

/// Encodes a `results` list from `i` on.
fn encode_output_items_exec(items: &Vec<OutputItem>, i: usize) -> (r: Vec<Json>)
    requires
        i <= items.len(),
    ensures
        view_json_seq(r@) == encode_output_items_v(view_output_items(items@).skip(i as int)),
    decreases items@.len() - i,
{
    proof {
        lemma_view_output_items(items@);
    }
    if i == items.len() {
        return Vec::new();
    }
    let ghost vs = view_output_items(items@);
    proof {
        assert(vs.skip(i as int)[0] == vs[i as int]);
        assert(vs.skip(i as int).skip(1) =~= vs.skip(i as int + 1));
    }
    let head = encode_output_item_exec(&items[i]);
    let mut rest = encode_output_items_exec(items, i + 1);
    let ghost rest0 = rest@;
    rest.insert(0, head);
    proof {
        lemma_view_json_seq(rest0);
        lemma_view_json_seq(rest@);
        assert(rest@ =~= seq![head] + rest0);
        assert(view_json_seq(rest@) =~= seq![view_json(head)] + view_json_seq(rest0));
    }
    rest
}

/// Appends an output's fields to the entries under construction.
fn encode_output_into(o: &Output, out: &mut Vec<(String, Json)>)
    ensures
        view_json_pairs(final(out)@) == encode_output_pairs_v(
            o@,
            view_json_pairs(old(out)@),
        ),
{
    match o {
        Output::Single(s) => {
            let ghost prev = out@;
            out.push(("result".to_owned(), Json::Str(s.name.clone())));
            proof {
                lemma_view_json_pairs_push(prev, out@.last());
            }
            if s.amount != 1 {
                let ghost prev = out@;
                out.push(("result_count".to_owned(), Json::Num(JNum::PosInt(s.amount as u64))));
                proof {
                    lemma_view_json_pairs_push(prev, out@.last());
                }
            }
            if s.probability != ONE_BITS {
                let ghost prev = out@;
                out.push(
                    ("result_probability".to_owned(), Json::Num(JNum::Float(s.probability))),
                );
                proof {
                    lemma_view_json_pairs_push(prev, out@.last());
                }
            }
        },
        Output::Many(m) => {
            let items = encode_output_items_exec(&m.outputs, 0);
            proof {
                assert(view_output_items(m.outputs@).skip(0) =~= view_output_items(m.outputs@));
            }
            let ghost prev = out@;
            out.push(("results".to_owned(), Json::Arr(items)));
            proof {
                lemma_view_json_pairs_push(prev, out@.last());
            }
        },
    }
}

/// Appends a flat body's fields to the entries under construction.
fn encode_data_into(d: &RecipeData, out: &mut Vec<(String, Json)>)
    ensures
        view_json_pairs(final(out)@) == encode_data_pairs_v(d@, view_json_pairs(old(out)@)),
{
    if !d.enabled {
        let ghost prev = out@;
        out.push(("enabled".to_owned(), Json::Bool(false)));
        proof {
            lemma_view_json_pairs_push(prev, out@.last());
        }
    }
    if d.duration != HALF_BITS {
        let ghost prev = out@;
        out.push(("energy_required".to_owned(), Json::Num(JNum::Float(d.duration))));
        proof {
            lemma_view_json_pairs_push(prev, out@.last());
        }
    }
    let ings = encode_ingredients_exec(&d.ingredients, 0);
    proof {
        assert(view_ingredients(d.ingredients@).skip(0) =~= view_ingredients(d.ingredients@));
    }
    let ghost prev = out@;
    out.push(("ingredients".to_owned(), Json::Arr(ings)));
    proof {
        lemma_view_json_pairs_push(prev, out@.last());
    }
    encode_output_into(&d.output, out);
}

/// Encodes a recipe record into a JSON tree, exactly as [`encode_recipe_v`]
/// describes: every field that equals its documented default is omitted.
pub fn encode_recipe(r: &Recipe) -> (j: Json)
    ensures
        j@ == encode_recipe_v(r@),
{
    let mut out: Vec<(String, Json)> = Vec::new();
    out.push(("name".to_owned(), Json::Str(r.name.clone())));
    out.push(("type".to_owned(), Json::Str("recipe".to_owned())));
    proof {
        lemma_view_json_pairs(out@);
        assert(view_json_pairs(out@) =~= seq![
            ("name"@, JsonV::Str(r.name@)),
            ("type"@, JsonV::Str("recipe"@)),
        ]);
    }
    match &r.category {
        Some(c) => {
            let ghost prev = out@;
            out.push(("category".to_owned(), Json::Str(c.clone())));
            proof {
                lemma_view_json_pairs_push(prev, out@.last());
            }
        },
        None => (),
    }
    match &r.subgroup {
        Some(c) => {
            let ghost prev = out@;
            out.push(("subgroup".to_owned(), Json::Str(c.clone())));
            proof {
                lemma_view_json_pairs_push(prev, out@.last());
            }
        },
        None => (),
    }
    match &r.order {
        Some(c) => {
            let ghost prev = out@;
            out.push(("order".to_owned(), Json::Str(c.clone())));
            proof {
                lemma_view_json_pairs_push(prev, out@.last());
            }
        },
        None => (),
    }
    match &r.icon {
        Some(ic) => {
            let ghost prev = out@;
            out.push(("icon".to_owned(), Json::Str(ic.path.clone())));
            proof {
                lemma_view_json_pairs_push(prev, out@.last());
            }
            let ghost prev = out@;
            out.push(("icon_mipmaps".to_owned(), Json::Num(JNum::PosInt(ic.mipmaps as u64))));
            proof {
                lemma_view_json_pairs_push(prev, out@.last());
            }
            let ghost prev = out@;
            out.push(("icon_size".to_owned(), Json::Num(JNum::PosInt(ic.size as u64))));
            proof {
                lemma_view_json_pairs_push(prev, out@.last());
            }
        },
        None => (),
    }
    match &r.recipe_data {
        RecipeDataEnum::Simple(d) => {
            encode_data_into(d, &mut out);
        },
        RecipeDataEnum::WithHardMode(h) => {
            let mut pn: Vec<(String, Json)> = Vec::new();
            encode_data_into(&h.normal, &mut pn);
            let mut pe: Vec<(String, Json)> = Vec::new();
            encode_data_into(&h.expensive, &mut pe);
            proof {
                assert(view_json_pairs(Seq::<(String, Json)>::empty()) =~= Seq::<
                    (Seq<char>, JsonV),
                >::empty());
            }
            let ghost prev = out@;
            out.push(("normal".to_owned(), Json::Obj(pn)));
            proof {
                lemma_view_json_pairs_push(prev, out@.last());
            }
            let ghost prev = out@;
            out.push(("expensive".to_owned(), Json::Obj(pe)));
            proof {
                lemma_view_json_pairs_push(prev, out@.last());
            }
        },
    }
    Json::Obj(out)
}

} // verus!
