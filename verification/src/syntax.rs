//! The library's model of a parsed literal expression.
//!
//! The syntax-level parser is an external collaborator: a caller turns source
//! text into a tree and converts the one expression node of interest into
//! this model. Each node carries the source text it was read from, which the
//! evaluator quotes in its error values.

use vstd::prelude::*;

verus! {

/// A scalar token: a literal, an identifier, a constant symbol, or one of
/// the token kinds that cannot stand where a value is expected.
#[derive(Debug, PartialEq)]
pub enum Token {
    /// A string literal; the payload is its unquoted content.
    Str(String),
    /// An identifier, treated as a string value.
    Ident(String),
    /// A numeric literal; the payload is its source text, parsed on evaluation.
    Num(String),
    /// The constant symbol `true`.
    True,
    /// The constant symbol `false`.
    False,
    /// The constant symbol `nil`.
    Nil,
    /// Any other symbol token; the payload is its rendering.
    OtherSym(String),
    /// End of input.
    Eof,
    /// A multi-line comment.
    MultiLineComment,
    /// A single-line comment.
    SingleLineComment,
    /// A shebang line.
    Shebang,
    /// Whitespace.
    Whitespace,
    /// A token kind the model does not distinguish.
    Unknown,
}

/// A binary operator of the literal language.
#[derive(Debug, Clone, Copy, PartialEq, Eq)]
pub enum BinOp {
    /// `~=`, inequality on any pair of values.
    Ne,
    /// `==`, equality on any pair of values.
    Eq,
    /// `and`, on booleans.
    And,
    /// `or`, on booleans.
    Or,
    /// `<`, on numbers.
    Lt,
    /// `<=`, on numbers.
    Le,
    /// `>`, on numbers.
    Gt,
    /// `>=`, on numbers.
    Ge,
    /// `+`, on numbers.
    Add,
    /// `-`, on numbers.
    Sub,
    /// `*`, on numbers.
    Mul,
    /// `/`, on numbers.
    Div,
    /// `%`, on numbers.
    Rem,
    /// `^`, floating-point power, on numbers.
    Pow,
    /// `..`, concatenation, on strings.
    Concat,
    /// Any other binary operator; always a type error.
    Other,
}

/// One field of a table constructor.
#[derive(Debug, PartialEq)]
pub enum Field {
    /// `name = value`.
    Named { key: String, value: Expr },
    /// `[key] = value`.
    Keyed { key: Expr, value: Expr },
    /// A positional field: just `value`.
    Positional(Expr),
    /// A field kind the model does not distinguish.
    Other,
}

/// The kinds of expression node the evaluator distinguishes.
#[derive(Debug, PartialEq)]
pub enum ExprKind {
    /// A scalar token: string, identifier, number, or constant symbol.
    Scalar(Token),
    /// A parenthesized sub-expression; transparent on evaluation.
    Paren(Box<Expr>),
    /// A table constructor.
    Table(Vec<Field>),
    /// Unary minus.
    Neg(Box<Expr>),
    /// Any other unary operator; always an error.
    OtherUnary(Box<Expr>),
    /// A binary operator applied to two sub-expressions.
    Bin(Box<Expr>, BinOp, Box<Expr>),
    /// An anonymous function; never a literal value.
    Function,
    /// A function call; never a literal value.
    FunctionCall,
    /// A variable reference; never a literal value.
    Var,
    /// An expression kind the model does not distinguish.
    Unknown,
}

/// An expression node: its kind beside the source text it was read from,
/// which error values quote.
#[derive(Debug, PartialEq)]
pub struct Expr {
    /// The source text of this node.
    pub text: String,
    /// The node's kind.
    pub kind: ExprKind,
}

/// Ghost mirror of [`Token`], with sequences for strings.
pub ghost enum TokenV {
    Str(Seq<char>),
    Ident(Seq<char>),
    Num(Seq<char>),
    True,
    False,
    Nil,
    OtherSym(Seq<char>),
    Eof,
    MultiLineComment,
    SingleLineComment,
    Shebang,
    Whitespace,
    Unknown,
}

/// Ghost mirror of [`Field`].
pub ghost enum FieldV {
    Named { key: Seq<char>, value: ExprV },
    Keyed { key: ExprV, value: ExprV },
    Positional(ExprV),
    Other,
}

/// Ghost mirror of [`ExprKind`].
pub ghost enum ExprKindV {
    Scalar(TokenV),
    Paren(Box<ExprV>),
    Table(Seq<FieldV>),
    Neg(Box<ExprV>),
    OtherUnary(Box<ExprV>),
    Bin(Box<ExprV>, BinOp, Box<ExprV>),
    Function,
    FunctionCall,
    Var,
    Unknown,
}

/// Ghost mirror of [`Expr`].
pub ghost struct ExprV {
    pub text: Seq<char>,
    pub kind: ExprKindV,
}

impl View for Token {
    type V = TokenV;

    open spec fn view(&self) -> TokenV {
        match self {
            Token::Str(s) => TokenV::Str(s@),
            Token::Ident(s) => TokenV::Ident(s@),
            Token::Num(s) => TokenV::Num(s@),
            Token::True => TokenV::True,
            Token::False => TokenV::False,
            Token::Nil => TokenV::Nil,
            Token::OtherSym(s) => TokenV::OtherSym(s@),
            Token::Eof => TokenV::Eof,
            Token::MultiLineComment => TokenV::MultiLineComment,
            Token::SingleLineComment => TokenV::SingleLineComment,
            Token::Shebang => TokenV::Shebang,
            Token::Whitespace => TokenV::Whitespace,
            Token::Unknown => TokenV::Unknown,
        }
    }
}

/// Deep view of an expression node.
pub open spec fn view_expr(e: Expr) -> ExprV
    decreases e,
{
    ExprV { text: e.text@, kind: view_expr_kind(e.kind) }
}

/// Deep view of an expression kind.
pub open spec fn view_expr_kind(k: ExprKind) -> ExprKindV
    decreases k,
{
    match k {
        ExprKind::Scalar(t) => ExprKindV::Scalar(t@),
        ExprKind::Paren(e) => ExprKindV::Paren(Box::new(view_expr(*e))),
        ExprKind::Table(fields) => ExprKindV::Table(view_fields(fields@)),
        ExprKind::Neg(e) => ExprKindV::Neg(Box::new(view_expr(*e))),
        ExprKind::OtherUnary(e) => ExprKindV::OtherUnary(Box::new(view_expr(*e))),
        ExprKind::Bin(l, op, r) => ExprKindV::Bin(
            Box::new(view_expr(*l)),
            op,
            Box::new(view_expr(*r)),
        ),
        ExprKind::Function => ExprKindV::Function,
        ExprKind::FunctionCall => ExprKindV::FunctionCall,
        ExprKind::Var => ExprKindV::Var,
        ExprKind::Unknown => ExprKindV::Unknown,
    }
}

/// Deep view of a sequence of table-constructor fields.
pub open spec fn view_fields(s: Seq<Field>) -> Seq<FieldV>
    decreases s,
{
    if s.len() == 0 {
        Seq::empty()
    } else {
        seq![view_field(s[0])] + view_fields(s.skip(1))
    }
}

/// Deep view of one table-constructor field.
pub open spec fn view_field(f: Field) -> FieldV
    decreases f,
{
    match f {
        Field::Named { key, value } => FieldV::Named { key: key@, value: view_expr(value) },
        Field::Keyed { key, value } => FieldV::Keyed {
            key: view_expr(key),
            value: view_expr(value),
        },
        Field::Positional(e) => FieldV::Positional(view_expr(e)),
        Field::Other => FieldV::Other,
    }
}

impl View for Expr {
    type V = ExprV;

    open spec fn view(&self) -> ExprV {
        view_expr(*self)
    }
}

impl View for Field {
    type V = FieldV;

    open spec fn view(&self) -> FieldV {
        view_field(*self)
    }
}

/// The length of a viewed field sequence matches the source sequence, and
/// each element is the view of the source element.
pub proof fn lemma_view_fields(s: Seq<Field>)
    ensures
        view_fields(s).len() == s.len(),
        forall|i: int| 0 <= i < s.len() ==> view_fields(s)[i] == view_field(s[i]),
    decreases s,
{
    if s.len() > 0 {
        lemma_view_fields(s.skip(1));
    }
}

} // verus!
