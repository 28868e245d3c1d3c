//! Tests of the literal-expression evaluator and the JSON bridge.

use data_parser::generic_transform::evaluate;
use data_parser::generic_transform::render;
use data_parser::generic_transform::Error;
use data_parser::generic_transform::Value;
use data_parser::json::value_to_json;
use data_parser::json::JNum;
use data_parser::json::Json;
use data_parser::num::Num;
use data_parser::syntax::BinOp;
use data_parser::syntax::Expr;
use data_parser::syntax::ExprKind;
use data_parser::syntax::Field;
use data_parser::syntax::Token;

fn num_lit(text: &str) -> Expr {
    Expr {
        text: text.to_string(),
        kind: ExprKind::Scalar(Token::Num(text.to_string())),
    }
}

fn str_lit(text: &str) -> Expr {
    Expr {
        text: format!("\"{}\"", text),
        kind: ExprKind::Scalar(Token::Str(text.to_string())),
    }
}

fn sym(text: &str, t: Token) -> Expr {
    Expr {
        text: text.to_string(),
        kind: ExprKind::Scalar(t),
    }
}

fn bin(l: Expr, op: BinOp, r: Expr) -> Expr {
    let text = format!("{} ? {}", l.text, r.text);
    Expr {
        text,
        kind: ExprKind::Bin(Box::new(l), op, Box::new(r)),
    }
}

fn table(text: &str, fields: Vec<Field>) -> Expr {
    Expr {
        text: text.to_string(),
        kind: ExprKind::Table(fields),
    }
}

fn expect_number(r: Result<Value, Error>) -> Num {
    match r {
        Ok(Value::Number(n)) => n,
        other => panic!("expected a number, found {:?}", other),
    }
}

#[test]
fn fold_subtraction() {
    let e = bin(num_lit("3"), BinOp::Sub, num_lit("4"));
    let n = expect_number(evaluate(&e));
    assert_eq!(n.bits, (-1.0f64).to_bits());
    assert_eq!(n.text, "-1");
}

#[test]
fn fold_power() {
    let e = bin(num_lit("2"), BinOp::Pow, num_lit("10"));
    let n = expect_number(evaluate(&e));
    assert_eq!(n.bits, 1024.0f64.to_bits());
    assert_eq!(n.text, "1024");
}

#[test]
fn fold_concat() {
    let e = bin(str_lit("a"), BinOp::Concat, str_lit("b"));
    assert_eq!(evaluate(&e), Ok(Value::Str("ab".to_string())));
}

#[test]
fn fold_equality() {
    let e = bin(num_lit("1"), BinOp::Eq, num_lit("1"));
    assert_eq!(evaluate(&e), Ok(Value::Bool(true)));
}

#[test]
fn fold_mismatch_fails() {
    let mut e = bin(sym("true", Token::True), BinOp::Add, num_lit("1"));
    e.text = "true + 1".to_string();
    assert_eq!(
        evaluate(&e),
        Err(Error::ExpressionInvalidType(
            "invalid binary expression: \"true + 1\"".to_string()
        ))
    );
}

#[test]
fn fold_comparison_and_division() {
    let lt = bin(num_lit("1"), BinOp::Lt, num_lit("2"));
    assert_eq!(evaluate(&lt), Ok(Value::Bool(true)));
    let ge = bin(num_lit("1"), BinOp::Ge, num_lit("2"));
    assert_eq!(evaluate(&ge), Ok(Value::Bool(false)));
    let div = bin(num_lit("1"), BinOp::Div, num_lit("4"));
    let n = expect_number(evaluate(&div));
    assert_eq!(n.bits, 0.25f64.to_bits());
}

#[test]
fn unary_minus() {
    let e = Expr {
        text: "-7.5".to_string(),
        kind: ExprKind::Neg(Box::new(num_lit("7.5"))),
    };
    let n = expect_number(evaluate(&e));
    assert_eq!(n.bits, (-7.5f64).to_bits());
    assert_eq!(n.text, "-7.5");
}

#[test]
fn unary_minus_on_string_fails() {
    let e = Expr {
        text: "-\"a\"".to_string(),
        kind: ExprKind::Neg(Box::new(str_lit("a"))),
    };
    assert_eq!(
        evaluate(&e),
        Err(Error::ExpressionInvalidType("\"a\"".to_string()))
    );
}

#[test]
fn numeric_parse_failure_is_wrapped() {
    let e = num_lit("0x1z");
    assert_eq!(
        evaluate(&e),
        Err(Error::Wrap {
            context: "failed to parse as float".to_string(),
            inner: Box::new(Error::AdHoc("invalid float literal".to_string())),
        })
    );
}

#[test]
fn scientific_notation_renders_canonically() {
    let n = expect_number(evaluate(&num_lit("1e2")));
    assert_eq!(n.bits, 100.0f64.to_bits());
    assert_eq!(n.text, "100");
}

#[test]
fn positional_constructor_is_a_list_in_source_order() {
    let e = table(
        "{1, \"two\", true}",
        vec![
            Field::Positional(num_lit("1")),
            Field::Positional(str_lit("two")),
            Field::Positional(sym("true", Token::True)),
        ],
    );
    let v = evaluate(&e).unwrap();
    let j = value_to_json(&v);
    assert_eq!(
        j,
        Json::Arr(vec![
            Json::Num(JNum::Float(1.0f64.to_bits())),
            Json::Str("two".to_string()),
            Json::Bool(true),
        ])
    );
}

#[test]
fn keyed_field_forces_table() {
    let e = table(
        "{a = 1, 2}",
        vec![
            Field::Named {
                key: "a".to_string(),
                value: num_lit("1"),
            },
            Field::Positional(num_lit("2")),
        ],
    );
    let v = evaluate(&e).unwrap();
    match &v {
        Value::Table(pairs) => {
            assert_eq!(pairs.len(), 2);
            assert_eq!(pairs[0].0, "a");
            // The synthetic key is the zero-based position among all fields.
            assert_eq!(pairs[1].0, "1");
        }
        other => panic!("expected a table, found {:?}", other),
    }
}

#[test]
fn explicit_literal_keys_are_stringified() {
    let e = table(
        "{[2] = \"x\", [true] = \"y\", [\"k\"] = \"z\"}",
        vec![
            Field::Keyed {
                key: num_lit("2"),
                value: str_lit("x"),
            },
            Field::Keyed {
                key: sym("true", Token::True),
                value: str_lit("y"),
            },
            Field::Keyed {
                key: str_lit("k"),
                value: str_lit("z"),
            },
        ],
    );
    let v = evaluate(&e).unwrap();
    match &v {
        Value::Table(pairs) => {
            assert_eq!(pairs[0].0, "2");
            assert_eq!(pairs[1].0, "true");
            assert_eq!(pairs[2].0, "k");
        }
        other => panic!("expected a table, found {:?}", other),
    }
}

#[test]
fn function_call_key_fails_with_invalid_key_type() {
    let e = table(
        "{[f()] = 1}",
        vec![Field::Keyed {
            key: Expr {
                text: "f()".to_string(),
                kind: ExprKind::FunctionCall,
            },
            value: num_lit("1"),
        }],
    );
    assert_eq!(
        evaluate(&e),
        Err(Error::FieldInvalidKeyType("FunctionCall".to_string()))
    );
}

#[test]
fn repeated_key_keeps_the_last_value() {
    let e = table(
        "{a = 1, a = 2}",
        vec![
            Field::Named {
                key: "a".to_string(),
                value: num_lit("1"),
            },
            Field::Named {
                key: "a".to_string(),
                value: num_lit("2"),
            },
        ],
    );
    let v = evaluate(&e).unwrap();
    match &v {
        Value::Table(pairs) => {
            assert_eq!(pairs.len(), 1);
            assert_eq!(pairs[0].0, "a");
            assert_eq!(pairs[0].1, Value::Number(Num { bits: 2.0f64.to_bits(), text: "2".to_string() }));
        }
        other => panic!("expected a table, found {:?}", other),
    }
}

#[test]
fn table_equality_ignores_entry_order() {
    let t1 = table(
        "{a = 1, b = 2}",
        vec![
            Field::Named {
                key: "a".to_string(),
                value: num_lit("1"),
            },
            Field::Named {
                key: "b".to_string(),
                value: num_lit("2"),
            },
        ],
    );
    let t2 = table(
        "{b = 2, a = 1}",
        vec![
            Field::Named {
                key: "b".to_string(),
                value: num_lit("2"),
            },
            Field::Named {
                key: "a".to_string(),
                value: num_lit("1"),
            },
        ],
    );
    let e = bin(t1, BinOp::Eq, t2);
    assert_eq!(evaluate(&e), Ok(Value::Bool(true)));
}

#[test]
fn division_by_zero_bridges_to_null() {
    let e = bin(num_lit("1"), BinOp::Div, num_lit("0"));
    let v = evaluate(&e).unwrap();
    match &v {
        Value::Number(n) => assert!(f64::from_bits(n.bits).is_infinite()),
        other => panic!("expected a number, found {:?}", other),
    }
    assert_eq!(value_to_json(&v), Json::Null);
}

#[test]
fn nested_literal_tree_transcribes_structurally() {
    // {name = "iron", amounts = {1, 2.5}, active = true, note = nil}
    let e = table(
        "{name = \"iron\", amounts = {1, 2.5}, active = true, note = nil}",
        vec![
            Field::Named {
                key: "name".to_string(),
                value: str_lit("iron"),
            },
            Field::Named {
                key: "amounts".to_string(),
                value: table(
                    "{1, 2.5}",
                    vec![
                        Field::Positional(num_lit("1")),
                        Field::Positional(num_lit("2.5")),
                    ],
                ),
            },
            Field::Named {
                key: "active".to_string(),
                value: sym("true", Token::True),
            },
            Field::Named {
                key: "note".to_string(),
                value: sym("nil", Token::Nil),
            },
        ],
    );
    let v = evaluate(&e).unwrap();
    let j = value_to_json(&v);
    assert_eq!(
        j,
        Json::Obj(vec![
            ("name".to_string(), Json::Str("iron".to_string())),
            (
                "amounts".to_string(),
                Json::Arr(vec![
                    Json::Num(JNum::Float(1.0f64.to_bits())),
                    Json::Num(JNum::Float(2.5f64.to_bits())),
                ])
            ),
            ("active".to_string(), Json::Bool(true)),
            ("note".to_string(), Json::Null),
        ])
    );
}

#[test]
fn keyed_field_in_list_position_is_rejected() {
    // A constructor with only positional fields classifies as a list; the
    // unsupported-token path is exercised where a value is expected.
    let e = sym("", Token::Eof);
    assert_eq!(
        evaluate(&e),
        Err(Error::TokenInvalidType("Eof".to_string()))
    );
    let sym_err = sym("..", Token::OtherSym("..".to_string()));
    assert_eq!(
        evaluate(&sym_err),
        Err(Error::InvalidSymbol("..".to_string()))
    );
}

#[test]
fn lhs_errors_are_wrapped_with_side_context() {
    let e = bin(sym("", Token::Eof), BinOp::Add, num_lit("1"));
    match evaluate(&e) {
        Err(Error::Wrap { context, inner }) => {
            assert_eq!(context, "parsing lhs of binary operator expression");
            assert_eq!(*inner, Error::TokenInvalidType("Eof".to_string()));
        }
        other => panic!("expected a wrapped error, found {:?}", other),
    }
}

#[test]
fn render_matches_display_shape() {
    let e = table(
        "{a = \"x\", 2}",
        vec![
            Field::Named {
                key: "a".to_string(),
                value: str_lit("x"),
            },
            Field::Positional(num_lit("2")),
        ],
    );
    let v = evaluate(&e).unwrap();
    assert_eq!(render(&v), "{a=\"x\",1=2,}");
    assert_eq!(render(&Value::Nil), "nil");
    assert_eq!(render(&Value::Bool(false)), "false");
}

#[test]
fn empty_constructor_is_an_empty_list() {
    let e = table("{}", vec![]);
    assert_eq!(evaluate(&e), Ok(Value::List(vec![])));
    assert_eq!(value_to_json(&Value::List(vec![])), Json::Arr(vec![]));
}
