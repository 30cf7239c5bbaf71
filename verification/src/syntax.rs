//! The abstract syntax of expressions and of paths.
//!
//! An expression is an atom followed by suffixes, which apply to it from left
//! to right: `build_info.crate_info.authors[0]` is the atom `build_info` with
//! two field accesses and an indexing.

use crate::integer::Integer;
use crate::text::strings_view;
use vstd::prelude::*;

verus! {

/// An expression that stands by itself.
#[derive(Debug, PartialEq, Eq)]
pub enum AtomicExpr {
    /// `true` or `false`.
    LitBool(bool),
    /// `'c'`.
    LitChar(char),
    /// `42`.
    LitInt(Integer),
    /// `"text"`.
    LitStr(String),
    /// `build_info`: the metadata that the expression is evaluated against.
    BuildInfo,
    /// `(expr)`.
    Parenthesized(Box<Expr>),
    /// `name(arguments)`.
    FunctionCall(String, Vec<Expr>),
    /// A call of a macro. The grammar of expressions has no form for it: it
    /// is there for callers that build expressions themselves.
    MacroCall(String, Vec<Expr>),
}

/// An atom and the suffixes that apply to it, in order.
#[derive(Debug, PartialEq, Eq)]
pub struct Expr {
    pub atom: AtomicExpr,
    pub suffixes: Vec<Suffix>,
}

/// One step from a value to the next.
#[derive(Debug, PartialEq, Eq)]
pub enum Suffix {
    /// `?`: the value inside an optional value.
    Unwrap,
    /// `.name`.
    Field(String),
    /// `.0`.
    TupleIndex(usize),
    /// `[index]`.
    ArrayIndex(Expr),
    /// `.name(arguments)`.
    FunctionCall(String, Vec<Expr>),
}

/// One segment of a path: the reduced form of a suffix, which holds no
/// expression.
#[derive(Clone, Debug, PartialEq, Eq)]
pub enum Index {
    /// `?`.
    Unwrap,
    /// `.name`.
    Field(String),
    /// `.name()`. The arguments are kept as written; the grammar of paths
    /// allows none.
    Function(String, Vec<String>),
}

/// What an [`AtomicExpr`] stands for.
pub ghost enum AtomicExprView {
    LitBool(bool),
    LitChar(char),
    LitInt(nat),
    LitStr(Seq<char>),
    BuildInfo,
    Parenthesized(Box<ExprView>),
    FunctionCall(Seq<char>, Seq<ExprView>),
    MacroCall(Seq<char>, Seq<ExprView>),
}

/// What an [`Expr`] stands for.
pub ghost struct ExprView {
    pub atom: AtomicExprView,
    pub suffixes: Seq<SuffixView>,
}

/// What a [`Suffix`] stands for.
pub ghost enum SuffixView {
    Unwrap,
    Field(Seq<char>),
    TupleIndex(nat),
    ArrayIndex(ExprView),
    FunctionCall(Seq<char>, Seq<ExprView>),
}

/// What an [`Index`] stands for.
pub ghost enum IndexView {
    Unwrap,
    Field(Seq<char>),
    Function(Seq<char>, Seq<Seq<char>>),
}

/// What an atom stands for.
pub open spec fn atom_view(a: AtomicExpr) -> AtomicExprView
    decreases a,
{
    match a {
        AtomicExpr::LitBool(b) => AtomicExprView::LitBool(b),
        AtomicExpr::LitChar(c) => AtomicExprView::LitChar(c),
        AtomicExpr::LitInt(n) => AtomicExprView::LitInt(n@),
        AtomicExpr::LitStr(s) => AtomicExprView::LitStr(s@),
        AtomicExpr::BuildInfo => AtomicExprView::BuildInfo,
        AtomicExpr::Parenthesized(e) => AtomicExprView::Parenthesized(Box::new(expr_view(*e))),
        AtomicExpr::FunctionCall(name, args) => AtomicExprView::FunctionCall(
            name@,
            Seq::new(
                args.len() as nat,
                |i: int|
                    if 0 <= i < args.len() {
                        expr_view(args[i])
                    } else {
                        arbitrary()
                    },
            ),
        ),
        AtomicExpr::MacroCall(name, args) => AtomicExprView::MacroCall(
            name@,
            Seq::new(
                args.len() as nat,
                |i: int|
                    if 0 <= i < args.len() {
                        expr_view(args[i])
                    } else {
                        arbitrary()
                    },
            ),
        ),
    }
}

/// What an expression stands for.
pub open spec fn expr_view(e: Expr) -> ExprView
    decreases e,
{
    ExprView {
        atom: atom_view(e.atom),
        suffixes: Seq::new(
            e.suffixes.len() as nat,
            |i: int|
                if 0 <= i < e.suffixes.len() {
                    suffix_view(e.suffixes[i])
                } else {
                    arbitrary()
                },
        ),
    }
}

/// What a suffix stands for.
pub open spec fn suffix_view(s: Suffix) -> SuffixView
    decreases s,
{
    match s {
        Suffix::Unwrap => SuffixView::Unwrap,
        Suffix::Field(name) => SuffixView::Field(name@),
        Suffix::TupleIndex(i) => SuffixView::TupleIndex(i as nat),
        Suffix::ArrayIndex(e) => SuffixView::ArrayIndex(expr_view(e)),
        Suffix::FunctionCall(name, args) => SuffixView::FunctionCall(
            name@,
            Seq::new(
                args.len() as nat,
                |i: int|
                    if 0 <= i < args.len() {
                        expr_view(args[i])
                    } else {
                        arbitrary()
                    },
            ),
        ),
    }
}

/// What each of the expressions stands for.
pub open spec fn exprs_view(exprs: Seq<Expr>) -> Seq<ExprView> {
    Seq::new(exprs.len(), |i: int| expr_view(exprs[i]))
}

/// What each of the suffixes stands for.
pub open spec fn suffixes_view(suffixes: Seq<Suffix>) -> Seq<SuffixView> {
    Seq::new(suffixes.len(), |i: int| suffix_view(suffixes[i]))
}

/// What each of the segments stands for.
pub open spec fn indices_view(indices: Seq<Index>) -> Seq<IndexView> {
    Seq::new(indices.len(), |i: int| indices[i]@)
}

impl View for AtomicExpr {
    type V = AtomicExprView;

    open spec fn view(&self) -> AtomicExprView {
        atom_view(*self)
    }
}

impl View for Expr {
    type V = ExprView;

    open spec fn view(&self) -> ExprView {
        expr_view(*self)
    }
}

impl View for Suffix {
    type V = SuffixView;

    open spec fn view(&self) -> SuffixView {
        suffix_view(*self)
    }
}

impl View for Index {
    type V = IndexView;

    open spec fn view(&self) -> IndexView {
        match self {
            Index::Unwrap => IndexView::Unwrap,
            Index::Field(name) => IndexView::Field(name@),
            Index::Function(name, args) => IndexView::Function(name@, strings_view(args@)),
        }
    }
}

/// The views of the parts of an expression are the parts of its view.
pub proof fn lemma_expr_view(e: Expr)
    ensures
        e@.atom == e.atom@,
        e@.suffixes == suffixes_view(e.suffixes@),
{
}

/// The view of a call holds the views of its arguments.
pub proof fn lemma_call_view(name: String, args: Vec<Expr>)
    ensures
        AtomicExpr::FunctionCall(name, args)@ == AtomicExprView::FunctionCall(
            name@,
            exprs_view(args@),
        ),
        AtomicExpr::MacroCall(name, args)@ == AtomicExprView::MacroCall(name@, exprs_view(args@)),
        Suffix::FunctionCall(name, args)@ == SuffixView::FunctionCall(name@, exprs_view(args@)),
{
    assert(AtomicExpr::MacroCall(name, args)@->MacroCall_1 =~= exprs_view(args@));
    assert(Suffix::FunctionCall(name, args)@->FunctionCall_1 =~= exprs_view(args@));
}

} // verus!
