//! Generic transformation of literal expressions into tagged values.
//!
//! [`evaluate`] walks a parsed literal expression ([`crate::syntax::Expr`])
//! and produces a [`Value`]: a closed tagged union of tables, lists, strings,
//! double-precision numbers, booleans and nil. Evaluation folds the fixed
//! operator set by type-directed constant folding and rejects every construct
//! outside the literal language with a typed [`Error`].

use vstd::prelude::*;

use crate::num::add_bits;
use crate::num::div_bits;
use crate::num::eq_bits;
use crate::num::fmt_bits;
use crate::num::le_bits;
use crate::num::lt_bits;
use crate::num::mul_bits;
use crate::num::neg_bits;
use crate::num::num_add;
use crate::num::num_div;
use crate::num::num_eq;
use crate::num::num_le;
use crate::num::num_lt;
use crate::num::num_mul;
use crate::num::num_neg;
use crate::num::num_parse;
use crate::num::num_pow;
use crate::num::num_rem;
use crate::num::num_sub;
use crate::num::parse_bits;
use crate::num::pow_bits;
use crate::num::rem_bits;
use crate::num::sub_bits;
use crate::num::Num;
use crate::syntax::view_expr;
use crate::syntax::view_field;
use crate::syntax::view_fields;
use crate::syntax::BinOp;
use crate::syntax::Expr;
use crate::syntax::ExprKind;
use crate::syntax::ExprKindV;
use crate::syntax::ExprV;
use crate::syntax::Field;
use crate::syntax::FieldV;
use crate::syntax::Token;
use crate::syntax::TokenV;

verus! {

/// A generic tagged value: the evaluator's output.
///
/// A table holds string keys in insertion order; the keys of a table the
/// evaluator builds are unique, and their order carries no meaning. A list's
/// order is meaningful and preserved end to end.
#[derive(Debug, PartialEq)]
pub enum Value {
    /// A mapping from string keys to values.
    Table(Vec<(String, Value)>),
    /// An ordered sequence of values.
    List(Vec<Value>),
    /// A string scalar.
    Str(String),
    /// A double-precision number scalar.
    Number(Num),
    /// A boolean scalar.
    Bool(bool),
    /// The nil scalar.
    Nil,
}

/// Ghost mirror of [`Value`]; a number is modelled by its bit pattern alone.
pub ghost enum ValueV {
    Table(Seq<(Seq<char>, ValueV)>),
    List(Seq<ValueV>),
    Str(Seq<char>),
    Number(u64),
    Bool(bool),
    Nil,
}

/// A typed evaluation error; wrapping preserves the chain of causes.
#[derive(Debug, PartialEq)]
pub enum Error {
    /// A table-constructor field of a kind the model does not distinguish.
    FieldUnknownKeyType,
    /// An explicit key expression of a non-literal kind; names the kind.
    FieldInvalidKeyType(String),
    /// A keyed field stood in a constructor classified as a list.
    FieldUnexpectedKey,
    /// An expression of an unsupported kind, or an operator type mismatch;
    /// quotes the offending expression.
    ExpressionInvalidType(String),
    /// A token of a kind that cannot stand where a value is expected.
    TokenInvalidType(String),
    /// A constant symbol other than `true`, `false` or `nil`.
    InvalidSymbol(String),
    /// An error wrapped with a context message; the cause is preserved.
    Wrap { context: String, inner: Box<Error> },
    /// A free-form error message.
    AdHoc(String),
}

/// Ghost mirror of [`Error`].
pub ghost enum ErrorV {
    FieldUnknownKeyType,
    FieldInvalidKeyType(Seq<char>),
    FieldUnexpectedKey,
    ExpressionInvalidType(Seq<char>),
    TokenInvalidType(Seq<char>),
    InvalidSymbol(Seq<char>),
    Wrap { context: Seq<char>, inner: Box<ErrorV> },
    AdHoc(Seq<char>),
}

/// Deep view of a value.
pub open spec fn view_value(v: Value) -> ValueV
    decreases v,
{
    match v {
        Value::Table(pairs) => ValueV::Table(view_value_pairs(pairs@)),
        Value::List(items) => ValueV::List(view_value_seq(items@)),
        Value::Str(s) => ValueV::Str(s@),
        Value::Number(n) => ValueV::Number(n.bits),
        Value::Bool(b) => ValueV::Bool(b),
        Value::Nil => ValueV::Nil,
    }
}

/// Deep view of a sequence of values.
pub open spec fn view_value_seq(s: Seq<Value>) -> Seq<ValueV>
    decreases s,
{
    if s.len() == 0 {
        Seq::empty()
    } else {
        seq![view_value(s[0])] + view_value_seq(s.skip(1))
    }
}

/// Deep view of a sequence of table entries.
pub open spec fn view_value_pairs(s: Seq<(String, Value)>) -> Seq<(Seq<char>, ValueV)>
    decreases s,
{
    if s.len() == 0 {
        Seq::empty()
    } else {
        seq![(s[0].0@, view_value(s[0].1))] + view_value_pairs(s.skip(1))
    }
}

impl View for Value {
    type V = ValueV;

    open spec fn view(&self) -> ValueV {
        view_value(*self)
    }
}

/// Deep view of an error.
pub open spec fn view_error(e: Error) -> ErrorV
    decreases e,
{
    match e {
        Error::FieldUnknownKeyType => ErrorV::FieldUnknownKeyType,
        Error::FieldInvalidKeyType(s) => ErrorV::FieldInvalidKeyType(s@),
        Error::FieldUnexpectedKey => ErrorV::FieldUnexpectedKey,
        Error::ExpressionInvalidType(s) => ErrorV::ExpressionInvalidType(s@),
        Error::TokenInvalidType(s) => ErrorV::TokenInvalidType(s@),
        Error::InvalidSymbol(s) => ErrorV::InvalidSymbol(s@),
        Error::Wrap { context, inner } => ErrorV::Wrap {
            context: context@,
            inner: Box::new(view_error(*inner)),
        },
        Error::AdHoc(s) => ErrorV::AdHoc(s@),
    }
}

impl View for Error {
    type V = ErrorV;

    open spec fn view(&self) -> ErrorV {
        view_error(*self)
    }
}

impl Error {
    /// Wraps an error with a context message, preserving the cause.
    pub fn wrap(context: &str, inner: Error) -> (r: Error)
        ensures
            r@ == (ErrorV::Wrap { context: context@, inner: Box::new(inner@) }),
    {
        Error::Wrap { context: context.to_owned(), inner: Box::new(inner) }
    }

    /// Builds a free-form error from a message.
    pub fn ad_hoc(msg: &str) -> (r: Error)
        ensures
            r@ == ErrorV::AdHoc(msg@),
    {
        Error::AdHoc(msg.to_owned())
    }
}

/// The view of an evaluation result.
pub open spec fn view_eval_result(r: Result<Value, Error>) -> Result<ValueV, ErrorV> {
    match r {
        Ok(v) => Ok(view_value(v)),
        Err(e) => Err(view_error(e)),
    }
}

/// Every number in the value carries its matching rendering. Values the
/// evaluator builds satisfy this.
pub open spec fn value_wf(v: Value) -> bool
    decreases v,
{
    match v {
        Value::Table(pairs) => pairs_wf(pairs@),
        Value::List(items) => items_wf(items@),
        Value::Number(n) => n.wf(),
        _ => true,
    }
}

/// Well-formedness of a sequence of list items.
pub open spec fn items_wf(s: Seq<Value>) -> bool
    decreases s,
{
    if s.len() == 0 {
        true
    } else {
        value_wf(s[0]) && items_wf(s.skip(1))
    }
}

/// Well-formedness of a sequence of table entries: every value well-formed.
pub open spec fn pairs_wf(s: Seq<(String, Value)>) -> bool
    decreases s,
{
    if s.len() == 0 {
        true
    } else {
        value_wf(s[0].1) && pairs_wf(s.skip(1))
    }
}

/// First index carrying the key in a viewed entry sequence, or -1.
pub open spec fn index_of_key(s: Seq<(Seq<char>, ValueV)>, k: Seq<char>) -> int
    decreases s,
{
    if s.len() == 0 {
        -1
    } else if s[0].0 == k {
        0
    } else {
        let r = index_of_key(s.skip(1), k);
        if r < 0 {
            -1
        } else {
            r + 1
        }
    }
}

/// Semantic equality of two values, as the `==` operator folds it: numbers
/// compare as doubles (a NaN equals nothing, the two zeroes are equal),
/// lists compare pointwise, and tables compare as maps — same entry count,
/// and every entry of the left table matched by key in the right one.
/// On the unique-keyed tables the evaluator builds this is map equality.
pub open spec fn val_eq(a: ValueV, b: ValueV) -> bool
    decreases a,
{
    match (a, b) {
        (ValueV::Table(pa), ValueV::Table(pb)) => pa.len() == pb.len() && table_entries_eq(pa, pb),
        (ValueV::List(la), ValueV::List(lb)) => la.len() == lb.len() && list_entries_eq(la, lb),
        (ValueV::Str(x), ValueV::Str(y)) => x == y,
        (ValueV::Number(x), ValueV::Number(y)) => eq_bits(x, y),
        (ValueV::Bool(x), ValueV::Bool(y)) => x == y,
        (ValueV::Nil, ValueV::Nil) => true,
        _ => false,
    }
}

/// Every entry of `pa` is matched by key in `pb` with a semantically equal
/// value.
pub open spec fn table_entries_eq(pa: Seq<(Seq<char>, ValueV)>, pb: Seq<(Seq<char>, ValueV)>) -> bool
    decreases pa,
{
    if pa.len() == 0 {
        true
    } else {
        let j = index_of_key(pb, pa[0].0);
        j >= 0 && val_eq(pa[0].1, pb[j].1) && table_entries_eq(pa.skip(1), pb)
    }
}

/// Pointwise semantic equality of two equally long lists.
pub open spec fn list_entries_eq(la: Seq<ValueV>, lb: Seq<ValueV>) -> bool
    decreases la,
{
    if la.len() == 0 {
        true
    } else {
        la.len() == lb.len() && val_eq(la[0], lb[0]) && list_entries_eq(la.skip(1), lb.skip(1))
    }
}

/// Decimal rendering of a digit.
pub open spec fn digit_str(d: nat) -> Seq<char> {
    if d == 0 {
        "0"@
    } else if d == 1 {
        "1"@
    } else if d == 2 {
        "2"@
    } else if d == 3 {
        "3"@
    } else if d == 4 {
        "4"@
    } else if d == 5 {
        "5"@
    } else if d == 6 {
        "6"@
    } else if d == 7 {
        "7"@
    } else if d == 8 {
        "8"@
    } else {
        "9"@
    }
}

/// Decimal rendering of a non-negative integer, without sign or padding.
pub open spec fn dec_str(n: nat) -> Seq<char>
    decreases n,
{
    if n < 10 {
        digit_str(n)
    } else {
        dec_str(n / 10) + digit_str(n % 10)
    }
}

/// The value of a scalar token: strings and identifiers are string values,
/// a numeric literal is parsed as a double, and the three constant symbols
/// map to their values. Every other token kind is a typed error.
pub open spec fn token_value(t: TokenV) -> Result<ValueV, ErrorV> {
    match t {
        TokenV::Str(s) => Ok(ValueV::Str(s)),
        TokenV::Ident(s) => Ok(ValueV::Str(s)),
        TokenV::Num(text) => match parse_bits(text) {
            Some(b) => Ok(ValueV::Number(b)),
            None => Err(
                ErrorV::Wrap {
                    context: "failed to parse as float"@,
                    inner: Box::new(ErrorV::AdHoc("invalid float literal"@)),
                },
            ),
        },
        TokenV::True => Ok(ValueV::Bool(true)),
        TokenV::False => Ok(ValueV::Bool(false)),
        TokenV::Nil => Ok(ValueV::Nil),
        TokenV::OtherSym(s) => Err(ErrorV::InvalidSymbol(s)),
        TokenV::Eof => Err(ErrorV::TokenInvalidType("Eof"@)),
        TokenV::MultiLineComment => Err(ErrorV::TokenInvalidType("MultiLineComment"@)),
        TokenV::SingleLineComment => Err(ErrorV::TokenInvalidType("SingleLineComment"@)),
        TokenV::Shebang => Err(ErrorV::TokenInvalidType("Shebang"@)),
        TokenV::Whitespace => Err(ErrorV::TokenInvalidType("Whitespace"@)),
        TokenV::Unknown => Err(ErrorV::TokenInvalidType("Unknown"@)),
    }
}

/// The rendering of a scalar value, as a computed table key is stringified:
/// a string is itself, a number renders as the double does, booleans and nil
/// render as their symbols. Tables and lists never reach this (the scalar
/// comes from a token); they render empty.
pub open spec fn scalar_key_string(v: ValueV) -> Seq<char> {
    match v {
        ValueV::Str(s) => s,
        ValueV::Number(b) => fmt_bits(b),
        ValueV::Bool(b) => if b {
            "true"@
        } else {
            "false"@
        },
        ValueV::Nil => "nil"@,
        _ => Seq::empty(),
    }
}

/// The kind name an invalid key expression is reported under.
pub open spec fn key_kind_name(k: ExprKindV) -> Seq<char> {
    match k {
        ExprKindV::Bin(_, _, _) => "BinaryOperator"@,
        ExprKindV::Paren(_) => "Parentheses"@,
        ExprKindV::Neg(_) => "UnaryOperator"@,
        ExprKindV::OtherUnary(_) => "UnaryOperator"@,
        ExprKindV::Function => "Function"@,
        ExprKindV::FunctionCall => "FunctionCall"@,
        ExprKindV::Table(_) => "TableConstructor"@,
        ExprKindV::Var => "Var"@,
        _ => "Unknown"@,
    }
}

/// The key an explicit key expression contributes: it must be a literal
/// token — string, number, or constant symbol — which is evaluated and
/// stringified; every other expression kind is rejected by kind name.
pub open spec fn keyed_key_string(key: ExprV) -> Result<Seq<char>, ErrorV> {
    match key.kind {
        ExprKindV::Scalar(t) => match token_value(t) {
            Ok(v) => Ok(scalar_key_string(v)),
            Err(e) => Err(e),
        },
        _ => Err(ErrorV::FieldInvalidKeyType(key_kind_name(key.kind))),
    }
}

/// The key a table-constructor field contributes: a named field's key is its
/// identifier; an explicit key is stringified by [`keyed_key_string`]; a
/// positional field mixed into a keyed constructor gets its zero-based
/// position among all fields as a synthetic key.
pub open spec fn key_of(idx: int, f: FieldV) -> Result<Seq<char>, ErrorV> {
    match f {
        FieldV::Named { key, .. } => Ok(key),
        FieldV::Keyed { key, .. } => keyed_key_string(key),
        FieldV::Positional(_) => Ok(dec_str(idx as nat)),
        FieldV::Other => Err(ErrorV::FieldUnknownKeyType),
    }
}

/// The value expression of a table-constructor field.
pub open spec fn field_value(f: FieldV) -> Result<ExprV, ErrorV> {
    match f {
        FieldV::Named { value, .. } => Ok(value),
        FieldV::Keyed { value, .. } => Ok(value),
        FieldV::Positional(e) => Ok(e),
        FieldV::Other => Err(ErrorV::FieldUnknownKeyType),
    }
}

/// Whether every field of the constructor is positional; such a constructor
/// is classified as a list, any other as a table.
pub open spec fn all_positional(fields: Seq<FieldV>) -> bool {
    forall|i: int| 0 <= i < fields.len() ==> fields[i] is Positional
}

/// Inserts a key into an entry sequence: replaces the value at an existing
/// key, else appends.
pub open spec fn upsert(
    acc: Seq<(Seq<char>, ValueV)>,
    k: Seq<char>,
    v: ValueV,
) -> Seq<(Seq<char>, ValueV)> {
    let i = index_of_key(acc, k);
    if i < 0 {
        acc.push((k, v))
    } else {
        acc.update(i, (k, v))
    }
}

/// The type-mismatch message for a binary expression.
pub open spec fn mismatch_msg(text: Seq<char>) -> Seq<char> {
    "invalid binary expression: \""@ + text + "\""@
}

/// Folds one binary operator over two evaluated operands: equality accepts
/// any pair; `and`/`or` need booleans; comparisons and arithmetic need
/// numbers, `^` being floating-point power; `..` concatenates strings. Any
/// other pairing is a type mismatch quoting the whole expression.
pub open spec fn apply_binop(l: ValueV, op: BinOp, r: ValueV, text: Seq<char>) -> Result<
    ValueV,
    ErrorV,
> {
    match op {
        BinOp::Ne => Ok(ValueV::Bool(!val_eq(l, r))),
        BinOp::Eq => Ok(ValueV::Bool(val_eq(l, r))),
        BinOp::And => match (l, r) {
            (ValueV::Bool(a), ValueV::Bool(b)) => Ok(ValueV::Bool(a && b)),
            _ => Err(ErrorV::ExpressionInvalidType(mismatch_msg(text))),
        },
        BinOp::Or => match (l, r) {
            (ValueV::Bool(a), ValueV::Bool(b)) => Ok(ValueV::Bool(a || b)),
            _ => Err(ErrorV::ExpressionInvalidType(mismatch_msg(text))),
        },
        BinOp::Lt => match (l, r) {
            (ValueV::Number(a), ValueV::Number(b)) => Ok(ValueV::Bool(lt_bits(a, b))),
            _ => Err(ErrorV::ExpressionInvalidType(mismatch_msg(text))),
        },
        BinOp::Le => match (l, r) {
            (ValueV::Number(a), ValueV::Number(b)) => Ok(ValueV::Bool(le_bits(a, b))),
            _ => Err(ErrorV::ExpressionInvalidType(mismatch_msg(text))),
        },
        BinOp::Gt => match (l, r) {
            (ValueV::Number(a), ValueV::Number(b)) => Ok(ValueV::Bool(lt_bits(b, a))),
            _ => Err(ErrorV::ExpressionInvalidType(mismatch_msg(text))),
        },
        BinOp::Ge => match (l, r) {
            (ValueV::Number(a), ValueV::Number(b)) => Ok(ValueV::Bool(le_bits(b, a))),
            _ => Err(ErrorV::ExpressionInvalidType(mismatch_msg(text))),
        },
        BinOp::Add => match (l, r) {
            (ValueV::Number(a), ValueV::Number(b)) => Ok(ValueV::Number(add_bits(a, b))),
            _ => Err(ErrorV::ExpressionInvalidType(mismatch_msg(text))),
        },
        BinOp::Sub => match (l, r) {
            (ValueV::Number(a), ValueV::Number(b)) => Ok(ValueV::Number(sub_bits(a, b))),
            _ => Err(ErrorV::ExpressionInvalidType(mismatch_msg(text))),
        },
        BinOp::Mul => match (l, r) {
            (ValueV::Number(a), ValueV::Number(b)) => Ok(ValueV::Number(mul_bits(a, b))),
            _ => Err(ErrorV::ExpressionInvalidType(mismatch_msg(text))),
        },
        BinOp::Div => match (l, r) {
            (ValueV::Number(a), ValueV::Number(b)) => Ok(ValueV::Number(div_bits(a, b))),
            _ => Err(ErrorV::ExpressionInvalidType(mismatch_msg(text))),
        },
        BinOp::Rem => match (l, r) {
            (ValueV::Number(a), ValueV::Number(b)) => Ok(ValueV::Number(rem_bits(a, b))),
            _ => Err(ErrorV::ExpressionInvalidType(mismatch_msg(text))),
        },
        BinOp::Pow => match (l, r) {
            (ValueV::Number(a), ValueV::Number(b)) => Ok(ValueV::Number(pow_bits(a, b))),
            _ => Err(ErrorV::ExpressionInvalidType(mismatch_msg(text))),
        },
        BinOp::Concat => match (l, r) {
            (ValueV::Str(a), ValueV::Str(b)) => Ok(ValueV::Str(a + b)),
            _ => Err(ErrorV::ExpressionInvalidType(mismatch_msg(text))),
        },
        BinOp::Other => Err(ErrorV::ExpressionInvalidType(mismatch_msg(text))),
    }
}

/// Evaluation of a literal expression: scalars by [`token_value`],
/// parentheses transparently, table constructors by classification, unary
/// minus on numbers only, binary operators by [`apply_binop`] with each
/// operand's failure wrapped with a side marker. Every other expression kind
/// is rejected, quoting its source text.
pub open spec fn eval_expr(e: ExprV) -> Result<ValueV, ErrorV>
    decreases e, 0int,
{
    match e.kind {
        ExprKindV::Scalar(t) => token_value(t),
        ExprKindV::Paren(inner) => eval_expr(*inner),
        ExprKindV::Table(fields) => if all_positional(fields) {
            match eval_list(fields, 0) {
                Ok(items) => Ok(ValueV::List(items)),
                Err(er) => Err(er),
            }
        } else {
            match eval_table(fields, 0, Seq::empty()) {
                Ok(pairs) => Ok(ValueV::Table(pairs)),
                Err(er) => Err(er),
            }
        },
        ExprKindV::Neg(inner) => match eval_expr(*inner) {
            Ok(ValueV::Number(b)) => Ok(ValueV::Number(neg_bits(b))),
            Ok(_) => Err(ErrorV::ExpressionInvalidType(inner.text)),
            Err(er) => Err(er),
        },
        ExprKindV::Bin(l, op, r) => match eval_expr(*l) {
            Err(er) => Err(
                ErrorV::Wrap {
                    context: "parsing lhs of binary operator expression"@,
                    inner: Box::new(er),
                },
            ),
            Ok(lv) => match eval_expr(*r) {
                Err(er) => Err(
                    ErrorV::Wrap {
                        context: "parsing rhs of binary operator expression"@,
                        inner: Box::new(er),
                    },
                ),
                Ok(rv) => apply_binop(lv, op, rv, e.text),
            },
        },
        _ => Err(ErrorV::ExpressionInvalidType(e.text)),
    }
}

/// Evaluates the fields of a list constructor from `idx` on, in source
/// order; the first failure stops the walk, and a keyed field is rejected.
pub open spec fn eval_list(fields: Seq<FieldV>, idx: int) -> Result<Seq<ValueV>, ErrorV>
    decreases fields, fields.len() - idx,
{
    if idx < 0 || idx >= fields.len() {
        Ok(Seq::empty())
    } else {
        match fields[idx] {
            FieldV::Positional(e) => match eval_expr(e) {
                Ok(v) => match eval_list(fields, idx + 1) {
                    Ok(rest) => Ok(seq![v] + rest),
                    Err(er) => Err(er),
                },
                Err(er) => Err(er),
            },
            _ => Err(ErrorV::FieldUnexpectedKey),
        }
    }
}

/// The viewed value sequence has the source's length, and each element is
/// the view of the source element.
pub proof fn lemma_view_value_seq(s: Seq<Value>)
    ensures
        view_value_seq(s).len() == s.len(),
        forall|i: int| 0 <= i < s.len() ==> view_value_seq(s)[i] == view_value(s[i]),
    decreases s,
{
    if s.len() > 0 {
        lemma_view_value_seq(s.skip(1));
    }
}

/// The viewed entry sequence has the source's length, and each element pairs
/// the viewed key with the viewed value of the source entry.
pub proof fn lemma_view_value_pairs(s: Seq<(String, Value)>)
    ensures
        view_value_pairs(s).len() == s.len(),
        forall|i: int|
            0 <= i < s.len() ==> view_value_pairs(s)[i] == (s[i].0@, view_value(s[i].1)),
    decreases s,
{
    if s.len() > 0 {
        lemma_view_value_pairs(s.skip(1));
    }
}

/// [`index_of_key`] returns -1 exactly when no entry carries the key, and
/// otherwise the first index that does.
pub proof fn lemma_index_of_key(s: Seq<(Seq<char>, ValueV)>, k: Seq<char>)
    ensures
        index_of_key(s, k) == -1 || (0 <= index_of_key(s, k) < s.len()),
        index_of_key(s, k) == -1 ==> forall|j: int| 0 <= j < s.len() ==> s[j].0 != k,
        index_of_key(s, k) >= 0 ==> s[index_of_key(s, k)].0 == k,
        index_of_key(s, k) >= 0 ==> forall|j: int| 0 <= j < index_of_key(s, k) ==> s[j].0 != k,
    decreases s,
{
    if s.len() > 0 && s[0].0 != k {
        lemma_index_of_key(s.skip(1), k);
        assert(forall|j: int| 1 <= j < s.len() ==> s[j] == s.skip(1)[j - 1]);
    }
}

/// Entry well-formedness is exactly elementwise well-formedness of the values.
pub proof fn lemma_pairs_wf_iff(s: Seq<(String, Value)>)
    ensures
        pairs_wf(s) <==> (forall|i: int| 0 <= i < s.len() ==> value_wf(s[i].1)),
    decreases s,
{
    if s.len() > 0 {
        lemma_pairs_wf_iff(s.skip(1));
        assert(forall|j: int| 1 <= j < s.len() ==> s[j] == s.skip(1)[j - 1]);
        if forall|i: int| 0 <= i < s.len() ==> value_wf(s[i].1) {
            assert(forall|i: int|
                0 <= i < s.skip(1).len() ==> value_wf(s.skip(1)[i].1)) by {
                assert(forall|i: int| 0 <= i < s.skip(1).len() ==> s.skip(1)[i] == s[i + 1]);
            }
        }
    }
}

/// Item well-formedness is exactly elementwise well-formedness.
pub proof fn lemma_items_wf_iff(s: Seq<Value>)
    ensures
        items_wf(s) <==> (forall|i: int| 0 <= i < s.len() ==> value_wf(s[i])),
    decreases s,
{
    if s.len() > 0 {
        lemma_items_wf_iff(s.skip(1));
        assert(forall|j: int| 1 <= j < s.len() ==> s[j] == s.skip(1)[j - 1]);
        if forall|i: int| 0 <= i < s.len() ==> value_wf(s[i]) {
            assert(forall|i: int| 0 <= i < s.skip(1).len() ==> value_wf(s.skip(1)[i])) by {
                assert(forall|i: int| 0 <= i < s.skip(1).len() ==> s.skip(1)[i] == s[i + 1]);
            }
        }
    }
}

/// Evaluates the fields of a keyed table constructor from `idx` on: for each
/// field first its key, then its value, inserting with replacement on a
/// repeated key.
pub open spec fn eval_table(
    fields: Seq<FieldV>,
    idx: int,
    acc: Seq<(Seq<char>, ValueV)>,
) -> Result<Seq<(Seq<char>, ValueV)>, ErrorV>
    decreases fields, fields.len() - idx,
{
    if idx < 0 || idx >= fields.len() {
        Ok(acc)
    } else {
        match fields[idx] {
            FieldV::Named { key, value } => match eval_expr(value) {
                Err(er) => Err(er),
                Ok(v) => eval_table(fields, idx + 1, upsert(acc, key, v)),
            },
            FieldV::Keyed { key, value } => match keyed_key_string(key) {
                Err(er) => Err(er),
                Ok(k) => match eval_expr(value) {
                    Err(er) => Err(er),
                    Ok(v) => eval_table(fields, idx + 1, upsert(acc, k, v)),
                },
            },
            FieldV::Positional(e) => match eval_expr(e) {
                Err(er) => Err(er),
                Ok(v) => eval_table(fields, idx + 1, upsert(acc, dec_str(idx as nat), v)),
            },
            FieldV::Other => Err(ErrorV::FieldUnknownKeyType),
        }
    }
}

/// Semantic equality of two values, as the `==` operator folds it.
pub fn value_eq(a: &Value, b: &Value) -> (r: bool)
    ensures
        r == val_eq(a@, b@),
    decreases *a, 0int,
{
    match (a, b) {
        (Value::Table(pa), Value::Table(pb)) => {
            proof {
                lemma_view_value_pairs(pa@);
                lemma_view_value_pairs(pb@);
                assert(view_value_pairs(pa@).skip(0) =~= view_value_pairs(pa@));
            }
            if pa.len() != pb.len() {
                false
            } else {
                table_entries_eq_exec(pa, 0, pb)
            }
        },
        (Value::List(la), Value::List(lb)) => {
            proof {
                lemma_view_value_seq(la@);
                lemma_view_value_seq(lb@);
                assert(view_value_seq(la@).skip(0) =~= view_value_seq(la@));
                assert(view_value_seq(lb@).skip(0) =~= view_value_seq(lb@));
            }
            if la.len() != lb.len() {
                false
            } else {
                list_entries_eq_exec(la, 0, lb)
            }
        },
        (Value::Str(x), Value::Str(y)) => String::eq(x, y),
        (Value::Number(x), Value::Number(y)) => num_eq(x, y),
        (Value::Bool(x), Value::Bool(y)) => x == y,
        (Value::Nil, Value::Nil) => true,
        _ => false,
    }
}

/// First index of `pb` carrying the key, if any.
fn find_key_index(pb: &Vec<(String, Value)>, k: &String) -> (r: Option<usize>)
    ensures
        match r {
            Some(i) => 0 <= i < pb.len() && index_of_key(view_value_pairs(pb@), k@) == i as int,
            None => index_of_key(view_value_pairs(pb@), k@) == -1,
        },
{
    let n = pb.len();
    for j in 0..n
        invariant
            n == pb.len(),
            forall|t: int| 0 <= t < j ==> pb@[t].0@ != k@,
    {
        let hit = String::eq(&pb[j].0, k);
        if hit {
            proof {
                lemma_view_value_pairs(pb@);
                lemma_index_of_key(view_value_pairs(pb@), k@);
                let s = view_value_pairs(pb@);
                let i = index_of_key(s, k@);
                assert(s[j as int].0 == k@);
                assert(i != -1);
                if i < j as int {
                    assert(s[i].0 == k@);
                    assert(pb@[i].0@ != k@);
                    assert(false);
                }
                if i > j as int {
                    assert(s[j as int].0 != k@);
                    assert(false);
                }
            }
            return Some(j);
        }
    }
    proof {
        lemma_view_value_pairs(pb@);
        lemma_index_of_key(view_value_pairs(pb@), k@);
        let s = view_value_pairs(pb@);
        let i = index_of_key(s, k@);
        if i >= 0 {
            assert(s[i].0 == k@);
            assert(pb@[i].0@ != k@);
            assert(false);
        }
    }
    None
}

/// Every entry of `pa` from `i` on is matched by key in `pb` with a
/// semantically equal value.
fn table_entries_eq_exec(pa: &Vec<(String, Value)>, i: usize, pb: &Vec<(String, Value)>) -> (r:
    bool)
    requires
        i <= pa.len(),
    ensures
        r == table_entries_eq(view_value_pairs(pa@).skip(i as int), view_value_pairs(pb@)),
    decreases pa@, pa@.len() - i,
{
    proof {
        lemma_view_value_pairs(pa@);
        lemma_view_value_pairs(pb@);
    }
    if i == pa.len() {
        return true;
    }
    let ghost va = view_value_pairs(pa@);
    proof {
        assert(va.skip(i as int).len() > 0);
        assert(va.skip(i as int)[0] == va[i as int]);
        assert(va.skip(i as int).skip(1) =~= va.skip(i as int + 1));
    }
    match find_key_index(pb, &pa[i].0) {
        None => false,
        Some(j) => {
            let head = value_eq(&pa[i].1, &pb[j].1);
            if head {
                table_entries_eq_exec(pa, i + 1, pb)
            } else {
                false
            }
        },
    }
}

/// Pointwise semantic equality of the lists from `i` on.
fn list_entries_eq_exec(la: &Vec<Value>, i: usize, lb: &Vec<Value>) -> (r: bool)
    requires
        i <= la.len(),
        la.len() == lb.len(),
    ensures
        r == list_entries_eq(view_value_seq(la@).skip(i as int), view_value_seq(lb@).skip(i as int)),
    decreases la@, la@.len() - i,
{
    proof {
        lemma_view_value_seq(la@);
        lemma_view_value_seq(lb@);
    }
    if i == la.len() {
        return true;
    }
    let ghost va = view_value_seq(la@);
    let ghost vb = view_value_seq(lb@);
    proof {
        assert(va.skip(i as int)[0] == va[i as int]);
        assert(vb.skip(i as int)[0] == vb[i as int]);
        assert(va.skip(i as int).skip(1) =~= va.skip(i as int + 1));
        assert(vb.skip(i as int).skip(1) =~= vb.skip(i as int + 1));
    }
    let head = value_eq(&la[i], &lb[i]);
    if head {
        list_entries_eq_exec(la, i + 1, lb)
    } else {
        false
    }
}

/// Decimal rendering of a digit.
fn digit_str_exec(d: usize) -> (r: String)
    requires
        d < 10,
    ensures
        r@ == digit_str(d as nat),
{
    match d {
        0 => "0".to_owned(),
        1 => "1".to_owned(),
        2 => "2".to_owned(),
        3 => "3".to_owned(),
        4 => "4".to_owned(),
        5 => "5".to_owned(),
        6 => "6".to_owned(),
        7 => "7".to_owned(),
        8 => "8".to_owned(),
        _ => "9".to_owned(),
    }
}

/// Decimal rendering of a non-negative integer.
pub fn dec_str_exec(n: usize) -> (r: String)
    ensures
        r@ == dec_str(n as nat),
    decreases n,
{
    if n < 10 {
        digit_str_exec(n)
    } else {
        let mut s = dec_str_exec(n / 10);
        let d = digit_str_exec(n % 10);
        s.append(d.as_str());
        s
    }
}

/// The value of a scalar token.
fn token_value_exec(t: &Token) -> (r: Result<Value, Error>)
    ensures
        view_eval_result(r) == token_value(t@),
        r matches Ok(v) ==> value_wf(v),
{
    match t {
        Token::Str(s) => Ok(Value::Str(s.clone())),
        Token::Ident(s) => Ok(Value::Str(s.clone())),
        Token::Num(s) => match num_parse(s.as_str()) {
            Some(n) => Ok(Value::Number(n)),
            None => {
                let inner = Error::AdHoc("invalid float literal".to_owned());
                proof {
                    assert(inner@ == ErrorV::AdHoc("invalid float literal"@));
                }
                Err(
                    Error::Wrap {
                        context: "failed to parse as float".to_owned(),
                        inner: Box::new(inner),
                    },
                )
            },
        },
        Token::True => Ok(Value::Bool(true)),
        Token::False => Ok(Value::Bool(false)),
        Token::Nil => Ok(Value::Nil),
        Token::OtherSym(s) => Err(Error::InvalidSymbol(s.clone())),
        Token::Eof => Err(Error::TokenInvalidType("Eof".to_owned())),
        Token::MultiLineComment => Err(Error::TokenInvalidType("MultiLineComment".to_owned())),
        Token::SingleLineComment => Err(Error::TokenInvalidType("SingleLineComment".to_owned())),
        Token::Shebang => Err(Error::TokenInvalidType("Shebang".to_owned())),
        Token::Whitespace => Err(Error::TokenInvalidType("Whitespace".to_owned())),
        Token::Unknown => Err(Error::TokenInvalidType("Unknown".to_owned())),
    }
}

/// The string an explicit key expression contributes.
fn keyed_key_string_exec(key: &Expr) -> (r: Result<String, Error>)
    ensures
        match r {
            Ok(s) => keyed_key_string(key@) == Ok::<Seq<char>, ErrorV>(s@),
            Err(er) => keyed_key_string(key@) == Err::<Seq<char>, ErrorV>(er@),
        },
{
    match &key.kind {
        ExprKind::Scalar(t) => match token_value_exec(t) {
            Ok(v) => match v {
                Value::Str(s) => Ok(s),
                Value::Number(n) => Ok(n.text),
                Value::Bool(b) => Ok(if b {
                    "true".to_owned()
                } else {
                    "false".to_owned()
                }),
                Value::Nil => Ok("nil".to_owned()),
                _ => Ok(String::new()),
            },
            Err(er) => Err(er),
        },
        ExprKind::Bin(_, _, _) => Err(Error::FieldInvalidKeyType("BinaryOperator".to_owned())),
        ExprKind::Paren(_) => Err(Error::FieldInvalidKeyType("Parentheses".to_owned())),
        ExprKind::Neg(_) => Err(Error::FieldInvalidKeyType("UnaryOperator".to_owned())),
        ExprKind::OtherUnary(_) => Err(Error::FieldInvalidKeyType("UnaryOperator".to_owned())),
        ExprKind::Function => Err(Error::FieldInvalidKeyType("Function".to_owned())),
        ExprKind::FunctionCall => Err(Error::FieldInvalidKeyType("FunctionCall".to_owned())),
        ExprKind::Table(_) => Err(Error::FieldInvalidKeyType("TableConstructor".to_owned())),
        ExprKind::Var => Err(Error::FieldInvalidKeyType("Var".to_owned())),
        ExprKind::Unknown => Err(Error::FieldInvalidKeyType("Unknown".to_owned())),
    }
}

/// Inserts into the entry vector: replaces the value at an existing key,
/// else appends.
fn upsert_exec(acc: &mut Vec<(String, Value)>, k: String, v: Value)
    requires
        pairs_wf(old(acc)@),
        value_wf(v),
    ensures
        view_value_pairs(final(acc)@) == upsert(view_value_pairs(old(acc)@), k@, v@),
        pairs_wf(final(acc)@),
{
    proof {
        lemma_view_value_pairs(old(acc)@);
        lemma_pairs_wf_iff(old(acc)@);
    }
    match find_key_index(acc, &k) {
        Some(i) => {
            acc.remove(i);
            acc.insert(i, (k, v));
            proof {
                lemma_view_value_pairs(acc@);
                lemma_pairs_wf_iff(acc@);
                assert(acc@ =~= old(acc)@.update(i as int, (k, v)));
                assert(view_value_pairs(acc@) =~= view_value_pairs(old(acc)@).update(
                    i as int,
                    (k@, v@),
                ));
            }
        },
        None => {
            acc.push((k, v));
            proof {
                lemma_view_value_pairs(acc@);
                lemma_pairs_wf_iff(acc@);
                assert(acc@ =~= old(acc)@.push((k, v)));
                assert(view_value_pairs(acc@) =~= view_value_pairs(old(acc)@).push((k@, v@)));
            }
        },
    }
}

/// Whether every field of the constructor is positional.
fn all_positional_exec(fields: &Vec<Field>) -> (r: bool)
    ensures
        r == all_positional(view_fields(fields@)),
{
    proof {
        crate::syntax::lemma_view_fields(fields@);
    }
    let n = fields.len();
    for j in 0..n
        invariant
            n == fields.len(),
            forall|t: int| 0 <= t < j ==> view_fields(fields@)[t] is Positional,
            forall|t: int| 0 <= t < fields.len() ==> view_fields(fields@)[t] == view_field(
                fields@[t],
            ),
            view_fields(fields@).len() == fields.len(),
    {
        let f = &fields[j];
        match f {
            Field::Positional(_) => (),
            _ => {
                proof {
                    assert(*f == fields@[j as int]);
                    assert(!(view_field(fields@[j as int]) is Positional));
                    assert(!all_positional(view_fields(fields@))) by {
                        assert((j as int) < view_fields(fields@).len());
                        assert(!(view_fields(fields@)[j as int] is Positional));
                    }
                }
                return false;
            },
        }
    }
    true
}

/// Evaluates a literal expression into a generic value, or a typed error.
///
/// Pure and total: every input yields exactly the result of the
/// specification [`eval_expr`], and a returned value is well-formed.
pub fn evaluate(e: &Expr) -> (r: Result<Value, Error>)
    ensures
        view_eval_result(r) == eval_expr(e@),
        r matches Ok(v) ==> value_wf(v),
    decreases *e, 0int,
{
    match &e.kind {
        ExprKind::Scalar(t) => token_value_exec(t),
        ExprKind::Paren(inner) => evaluate(&**inner),
        ExprKind::Table(fields) => {
            if all_positional_exec(fields) {
                match eval_list_exec(fields, 0) {
                    Ok(items) => Ok(Value::List(items)),
                    Err(er) => Err(er),
                }
            } else {
                match eval_table_exec(fields, 0, Vec::new()) {
                    Ok(pairs) => Ok(Value::Table(pairs)),
                    Err(er) => Err(er),
                }
            }
        },
        ExprKind::Neg(inner) => match evaluate(&**inner) {
            Ok(Value::Number(n)) => Ok(Value::Number(num_neg(&n))),
            Ok(_) => Err(Error::ExpressionInvalidType(inner.text.clone())),
            Err(er) => Err(er),
        },
        ExprKind::Bin(l, op, r_e) => match evaluate(&**l) {
            Err(er) => Err(Error::wrap("parsing lhs of binary operator expression", er)),
            Ok(lv) => match evaluate(&**r_e) {
                Err(er) => Err(Error::wrap("parsing rhs of binary operator expression", er)),
                Ok(rv) => apply_binop_exec(lv, *op, rv, &e.text),
            },
        },
        ExprKind::OtherUnary(_) => Err(Error::ExpressionInvalidType(e.text.clone())),
        ExprKind::Function => Err(Error::ExpressionInvalidType(e.text.clone())),
        ExprKind::FunctionCall => Err(Error::ExpressionInvalidType(e.text.clone())),
        ExprKind::Var => Err(Error::ExpressionInvalidType(e.text.clone())),
        ExprKind::Unknown => Err(Error::ExpressionInvalidType(e.text.clone())),
    }
}

/// The type-mismatch message quoting the whole binary expression.
fn mismatch_msg_exec(text: &String) -> (r: String)
    ensures
        r@ == mismatch_msg(text@),
{
    let mut s = "invalid binary expression: \"".to_owned();
    s.append(text.as_str());
    s.append("\"");
    s
}

/// Folds one binary operator over two evaluated operands.
fn apply_binop_exec(l: Value, op: BinOp, r: Value, text: &String) -> (res: Result<Value, Error>)
    requires
        value_wf(l),
        value_wf(r),
    ensures
        view_eval_result(res) == apply_binop(l@, op, r@, text@),
        res matches Ok(v) ==> value_wf(v),
{
    match op {
        BinOp::Ne => {
            let eq = value_eq(&l, &r);
            Ok(Value::Bool(!eq))
        },
        BinOp::Eq => {
            let eq = value_eq(&l, &r);
            Ok(Value::Bool(eq))
        },
        BinOp::And => match (l, r) {
            (Value::Bool(a), Value::Bool(b)) => Ok(Value::Bool(a && b)),
            _ => Err(Error::ExpressionInvalidType(mismatch_msg_exec(text))),
        },
        BinOp::Or => match (l, r) {
            (Value::Bool(a), Value::Bool(b)) => Ok(Value::Bool(a || b)),
            _ => Err(Error::ExpressionInvalidType(mismatch_msg_exec(text))),
        },
        BinOp::Lt => match (l, r) {
            (Value::Number(a), Value::Number(b)) => Ok(Value::Bool(num_lt(&a, &b))),
            _ => Err(Error::ExpressionInvalidType(mismatch_msg_exec(text))),
        },
        BinOp::Le => match (l, r) {
            (Value::Number(a), Value::Number(b)) => Ok(Value::Bool(num_le(&a, &b))),
            _ => Err(Error::ExpressionInvalidType(mismatch_msg_exec(text))),
        },
        BinOp::Gt => match (l, r) {
            (Value::Number(a), Value::Number(b)) => Ok(Value::Bool(num_lt(&b, &a))),
            _ => Err(Error::ExpressionInvalidType(mismatch_msg_exec(text))),
        },
        BinOp::Ge => match (l, r) {
            (Value::Number(a), Value::Number(b)) => Ok(Value::Bool(num_le(&b, &a))),
            _ => Err(Error::ExpressionInvalidType(mismatch_msg_exec(text))),
        },
        BinOp::Add => match (l, r) {
            (Value::Number(a), Value::Number(b)) => Ok(Value::Number(num_add(&a, &b))),
            _ => Err(Error::ExpressionInvalidType(mismatch_msg_exec(text))),
        },
        BinOp::Sub => match (l, r) {
            (Value::Number(a), Value::Number(b)) => Ok(Value::Number(num_sub(&a, &b))),
            _ => Err(Error::ExpressionInvalidType(mismatch_msg_exec(text))),
        },
        BinOp::Mul => match (l, r) {
            (Value::Number(a), Value::Number(b)) => Ok(Value::Number(num_mul(&a, &b))),
            _ => Err(Error::ExpressionInvalidType(mismatch_msg_exec(text))),
        },
        BinOp::Div => match (l, r) {
            (Value::Number(a), Value::Number(b)) => Ok(Value::Number(num_div(&a, &b))),
            _ => Err(Error::ExpressionInvalidType(mismatch_msg_exec(text))),
        },
        BinOp::Rem => match (l, r) {
            (Value::Number(a), Value::Number(b)) => Ok(Value::Number(num_rem(&a, &b))),
            _ => Err(Error::ExpressionInvalidType(mismatch_msg_exec(text))),
        },
        BinOp::Pow => match (l, r) {
            (Value::Number(a), Value::Number(b)) => Ok(Value::Number(num_pow(&a, &b))),
            _ => Err(Error::ExpressionInvalidType(mismatch_msg_exec(text))),
        },
        BinOp::Concat => match (l, r) {
            (Value::Str(a), Value::Str(b)) => Ok(Value::Str(a.concat(b.as_str()))),
            _ => Err(Error::ExpressionInvalidType(mismatch_msg_exec(text))),
        },
        BinOp::Other => Err(Error::ExpressionInvalidType(mismatch_msg_exec(text))),
    }
}

/// Evaluates the fields of a list constructor from `i` on.
fn eval_list_exec(fields: &Vec<Field>, i: usize) -> (r: Result<Vec<Value>, Error>)
    requires
        i <= fields.len(),
    ensures
        match r {
            Ok(out) => eval_list(view_fields(fields@), i as int) == Ok::<_, ErrorV>(
                view_value_seq(out@),
            ) && items_wf(out@),
            Err(er) => eval_list(view_fields(fields@), i as int) == Err::<Seq<ValueV>, _>(er@),
        },
    decreases fields@, fields@.len() - i,
{
    proof {
        crate::syntax::lemma_view_fields(fields@);
    }
    if i == fields.len() {
        return Ok(Vec::new());
    }
    match &fields[i] {
        Field::Positional(inner) => match evaluate(inner) {
            Ok(v) => match eval_list_exec(fields, i + 1) {
                Ok(mut rest) => {
                    let ghost rest0 = rest@;
                    rest.insert(0, v);
                    proof {
                        lemma_view_value_seq(rest0);
                        lemma_view_value_seq(rest@);
                        lemma_items_wf_iff(rest0);
                        lemma_items_wf_iff(rest@);
                        assert(rest@ =~= seq![v] + rest0);
                        assert(view_value_seq(rest@) =~= seq![view_value(v)] + view_value_seq(
                            rest0,
                        ));
                    }
                    Ok(rest)
                },
                Err(er) => Err(er),
            },
            Err(er) => Err(er),
        },
        _ => Err(Error::FieldUnexpectedKey),
    }
}

/// Evaluates the fields of a keyed table constructor from `i` on, into `acc`.
fn eval_table_exec(fields: &Vec<Field>, i: usize, acc: Vec<(String, Value)>) -> (r: Result<
    Vec<(String, Value)>,
    Error,
>)
    requires
        i <= fields.len(),
        pairs_wf(acc@),
    ensures
        match r {
            Ok(out) => eval_table(view_fields(fields@), i as int, view_value_pairs(acc@)) == Ok::<
                _,
                ErrorV,
            >(view_value_pairs(out@)) && pairs_wf(out@),
            Err(er) => eval_table(view_fields(fields@), i as int, view_value_pairs(acc@)) == Err::<
                Seq<(Seq<char>, ValueV)>,
                _,
            >(er@),
        },
    decreases fields@, fields@.len() - i,
{
    proof {
        crate::syntax::lemma_view_fields(fields@);
    }
    if i == fields.len() {
        return Ok(acc);
    }
    match &fields[i] {
        Field::Named { key, value } => match evaluate(value) {
            Err(er) => Err(er),
            Ok(v) => {
                let mut acc2 = acc;
                upsert_exec(&mut acc2, key.clone(), v);
                eval_table_exec(fields, i + 1, acc2)
            },
        },
        Field::Keyed { key, value } => match keyed_key_string_exec(key) {
            Err(er) => Err(er),
            Ok(k) => match evaluate(value) {
                Err(er) => Err(er),
                Ok(v) => {
                    let mut acc2 = acc;
                    upsert_exec(&mut acc2, k, v);
                    eval_table_exec(fields, i + 1, acc2)
                },
            },
        },
        Field::Positional(inner) => match evaluate(inner) {
            Err(er) => Err(er),
            Ok(v) => {
                let k = dec_str_exec(i);
                let mut acc2 = acc;
                upsert_exec(&mut acc2, k, v);
                eval_table_exec(fields, i + 1, acc2)
            },
        },
        Field::Other => Err(Error::FieldUnknownKeyType),
    }
}

/// Rendering of a value: tables and lists between braces with a comma after
/// each item, a table entry as `key=value`, a string between double quotes,
/// a number as the double renders, booleans and nil as their symbols.
pub open spec fn render_value(v: ValueV) -> Seq<char>
    decreases v,
{
    match v {
        ValueV::Table(pairs) => "{"@ + render_pairs(pairs) + "}"@,
        ValueV::List(items) => "{"@ + render_items(items) + "}"@,
        ValueV::Str(s) => "\""@ + s + "\""@,
        ValueV::Number(b) => fmt_bits(b),
        ValueV::Bool(b) => if b {
            "true"@
        } else {
            "false"@
        },
        ValueV::Nil => "nil"@,
    }
}

/// Rendering of a table's entries, each as `key=value,`.
pub open spec fn render_pairs(pairs: Seq<(Seq<char>, ValueV)>) -> Seq<char>
    decreases pairs,
{
    if pairs.len() == 0 {
        Seq::empty()
    } else {
        pairs[0].0 + "="@ + render_value(pairs[0].1) + ","@ + render_pairs(pairs.skip(1))
    }
}

/// Rendering of a list's items, each followed by a comma.
pub open spec fn render_items(items: Seq<ValueV>) -> Seq<char>
    decreases items,
{
    if items.len() == 0 {
        Seq::empty()
    } else {
        render_value(items[0]) + ","@ + render_items(items.skip(1))
    }
}

/// Renders a well-formed value as [`render_value`] describes.
pub fn render(v: &Value) -> (r: String)
    ensures
        value_wf(*v) ==> r@ == render_value(v@),
    decreases *v,
{
    match v {
        Value::Table(pairs) => {
            let mut s = "{".to_owned();
            let body = render_pairs_exec(pairs, 0);
            s.append(body.as_str());
            s.append("}");
            proof {
                assert(view_value_pairs(pairs@).skip(0) =~= view_value_pairs(pairs@));
            }
            s
        },
        Value::List(items) => {
            let mut s = "{".to_owned();
            let body = render_items_exec(items, 0);
            s.append(body.as_str());
            s.append("}");
            proof {
                assert(view_value_seq(items@).skip(0) =~= view_value_seq(items@));
            }
            s
        },
        Value::Str(x) => {
            let mut s = "\"".to_owned();
            s.append(x.as_str());
            s.append("\"");
            s
        },
        Value::Number(n) => n.text.clone(),
        Value::Bool(b) => if *b {
            "true".to_owned()
        } else {
            "false".to_owned()
        },
        Value::Nil => "nil".to_owned(),
    }
}

/// Renders a table's entries from `i` on.
fn render_pairs_exec(pairs: &Vec<(String, Value)>, i: usize) -> (r: String)
    requires
        i <= pairs.len(),
    ensures
        pairs_wf(pairs@) ==> r@ == render_pairs(view_value_pairs(pairs@).skip(i as int)),
    decreases pairs@, pairs@.len() - i,
{
    proof {
        lemma_view_value_pairs(pairs@);
        lemma_pairs_wf_iff(pairs@);
    }
    if i == pairs.len() {
        return String::new();
    }
    let ghost vp = view_value_pairs(pairs@);
    proof {
        assert(vp.skip(i as int)[0] == vp[i as int]);
        assert(vp.skip(i as int).skip(1) =~= vp.skip(i as int + 1));
    }
    let mut s = pairs[i].0.clone();
    s.append("=");
    let val = render(&pairs[i].1);
    s.append(val.as_str());
    s.append(",");
    let rest = render_pairs_exec(pairs, i + 1);
    s.append(rest.as_str());
    s
}

/// Renders a list's items from `i` on.
fn render_items_exec(items: &Vec<Value>, i: usize) -> (r: String)
    requires
        i <= items.len(),
    ensures
        items_wf(items@) ==> r@ == render_items(view_value_seq(items@).skip(i as int)),
    decreases items@, items@.len() - i,
{
    proof {
        lemma_view_value_seq(items@);
        lemma_items_wf_iff(items@);
    }
    if i == items.len() {
        return String::new();
    }
    let ghost vs = view_value_seq(items@);
    proof {
        assert(vs.skip(i as int)[0] == vs[i as int]);
        assert(vs.skip(i as int).skip(1) =~= vs.skip(i as int + 1));
    }
    let mut s = render(&items[i]);
    s.append(",");
    let rest = render_items_exec(items, i + 1);
    s.append(rest.as_str());
    s
}

impl vstd::std_specs::convert::FromSpecImpl<bool> for Value {
    open spec fn obeys_from_spec() -> bool {
        true
    }

    open spec fn from_spec(b: bool) -> Value {
        Value::Bool(b)
    }
}

impl From<bool> for Value {
    /// A boolean becomes the boolean scalar.
    fn from(b: bool) -> Value {
        Value::Bool(b)
    }
}

impl vstd::std_specs::convert::FromSpecImpl<Num> for Value {
    open spec fn obeys_from_spec() -> bool {
        true
    }

    open spec fn from_spec(n: Num) -> Value {
        Value::Number(n)
    }
}

impl From<Num> for Value {
    /// A number becomes the number scalar.
    fn from(n: Num) -> Value {
        Value::Number(n)
    }
}

impl vstd::std_specs::convert::FromSpecImpl<String> for Value {
    open spec fn obeys_from_spec() -> bool {
        true
    }

    open spec fn from_spec(s: String) -> Value {
        Value::Str(s)
    }
}

impl From<String> for Value {
    /// A string becomes the string scalar.
    fn from(s: String) -> Value {
        Value::Str(s)
    }
}

impl vstd::std_specs::convert::FromSpecImpl<Vec<Value>> for Value {
    open spec fn obeys_from_spec() -> bool {
        true
    }

    open spec fn from_spec(items: Vec<Value>) -> Value {
        Value::List(items)
    }
}

impl From<Vec<Value>> for Value {
    /// A vector of values becomes a list.
    fn from(items: Vec<Value>) -> Value {
        Value::List(items)
    }
}

impl vstd::std_specs::convert::FromSpecImpl<Vec<(String, Value)>> for Value {
    open spec fn obeys_from_spec() -> bool {
        true
    }

    open spec fn from_spec(pairs: Vec<(String, Value)>) -> Value {
        Value::Table(pairs)
    }
}

impl From<Vec<(String, Value)>> for Value {
    /// A vector of keyed entries becomes a table.
    fn from(pairs: Vec<(String, Value)>) -> Value {
        Value::Table(pairs)
    }
}

} // verus!
