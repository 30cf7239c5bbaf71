//! Evaluation of expressions.
//!
//! The atom gives the first value; then each suffix turns the value before it
//! into the next. Arguments are evaluated from left to right, and the first
//! failure is the result of the whole expression.

use crate::error::{Error, ErrorView};
use crate::integer::Integer;
use crate::metadata::{BuildInfo, BuildInfoView};
use crate::parse::{parse_expression, whole_expression};
use crate::syntax::{
    AtomicExpr,
    AtomicExprView,
    Expr,
    exprs_view,
    ExprView,
    lemma_call_view,
    lemma_expr_view,
    Suffix,
    SuffixView,
};
use crate::value::{
    call_spec,
    OP_ARRAY_INDEX,
    OP_FIELD_ACCESS,
    OP_TUPLE_INDEX,
    OP_UNWRAP,
    result_view,
    Value,
    values_view,
    ValueView,
};
use vstd::prelude::*;

verus! {

/// What the function `name` yields for the arguments `args`. No function is
/// defined, so every call fails, and names the function.
pub open spec fn function_result(name: Seq<char>, args: Seq<ValueView>) -> Result<
    ValueView,
    ErrorView,
> {
    Err(ErrorView::UnknownFunction(name))
}

/// What the macro `name` yields for the arguments `args`. No macro is
/// defined, so every call fails, and names the macro.
pub open spec fn macro_result(name: Seq<char>, args: Seq<ValueView>) -> Result<
    ValueView,
    ErrorView,
> {
    Err(ErrorView::UnknownMacro(name))
}

/// The value of an atom.
pub open spec fn eval_atom(a: AtomicExprView, root: BuildInfoView) -> Result<ValueView, ErrorView>
    decreases a, 0nat,
{
    match a {
        AtomicExprView::LitBool(b) => Ok(ValueView::Bool(b)),
        AtomicExprView::LitChar(c) => Ok(ValueView::Char(c)),
        AtomicExprView::LitInt(n) => Ok(ValueView::Integer(n)),
        AtomicExprView::LitStr(s) => Ok(ValueView::Str(s)),
        AtomicExprView::BuildInfo => Ok(ValueView::BuildInfo(root)),
        AtomicExprView::Parenthesized(e) => eval_expr(*e, root),
        AtomicExprView::FunctionCall(name, args) => match eval_args(args, args.len(), root) {
            Ok(values) => function_result(name, values),
            Err(e) => Err(e),
        },
        AtomicExprView::MacroCall(name, args) => match eval_args(args, args.len(), root) {
            Ok(values) => macro_result(name, values),
            Err(e) => Err(e),
        },
    }
}

/// The value of an expression: that of its atom, after all its suffixes.
pub open spec fn eval_expr(e: ExprView, root: BuildInfoView) -> Result<ValueView, ErrorView>
    decreases e, e.suffixes.len() + 1,
{
    eval_prefix(e, e.suffixes.len(), root)
}

/// The value of the atom of `e` after the first `n` suffixes of `e`. A
/// failure ends the evaluation: no later suffix is looked at.
pub open spec fn eval_prefix(e: ExprView, n: nat, root: BuildInfoView) -> Result<ValueView, ErrorView>
    decreases e, n,
{
    if n == 0 {
        eval_atom(e.atom, root)
    } else if n > e.suffixes.len() {
        eval_prefix(e, e.suffixes.len(), root)
    } else {
        match eval_prefix(e, (n - 1) as nat, root) {
            Ok(v) => apply_suffix(v, e.suffixes[n - 1], root),
            Err(e) => Err(e),
        }
    }
}

/// The value that a suffix makes of the value `v`.
pub open spec fn apply_suffix(v: ValueView, s: SuffixView, root: BuildInfoView) -> Result<
    ValueView,
    ErrorView,
>
    decreases s, 0nat,
{
    match s {
        SuffixView::Unwrap => call_spec(v, OP_UNWRAP@, Seq::empty()),
        SuffixView::Field(name) => call_spec(v, OP_FIELD_ACCESS@, seq![ValueView::Str(name)]),
        SuffixView::TupleIndex(i) => call_spec(v, OP_TUPLE_INDEX@, seq![ValueView::Integer(i)]),
        SuffixView::ArrayIndex(e) => match eval_expr(e, root) {
            Ok(i) => call_spec(v, OP_ARRAY_INDEX@, seq![i]),
            Err(e) => Err(e),
        },
        SuffixView::FunctionCall(name, args) => match eval_args(args, args.len(), root) {
            Ok(values) => call_spec(v, name, values),
            Err(e) => Err(e),
        },
    }
}

/// The values of the first `n` of the arguments, in order; or the failure of
/// the first argument that fails.
pub open spec fn eval_args(args: Seq<ExprView>, n: nat, root: BuildInfoView) -> Result<
    Seq<ValueView>,
    ErrorView,
>
    decreases args, n,
{
    if n == 0 {
        Ok(Seq::empty())
    } else if n > args.len() {
        eval_args(args, args.len(), root)
    } else {
        match eval_args(args, (n - 1) as nat, root) {
            Ok(values) => match eval_expr(args[n - 1], root) {
                Ok(v) => Ok(values.push(v)),
                Err(e) => Err(e),
            },
            Err(e) => Err(e),
        }
    }
}

/// Once a prefix of an expression has failed, the expression fails in the
/// same way.
pub proof fn lemma_prefix_failure(e: ExprView, n: nat, m: nat, root: BuildInfoView)
    requires
        n <= m <= e.suffixes.len(),
        eval_prefix(e, n, root) is Err,
    ensures
        eval_prefix(e, m, root) == eval_prefix(e, n, root),
    decreases m,
{
    if m > n {
        lemma_prefix_failure(e, n, (m - 1) as nat, root);
    }
}

/// Once an argument has failed, the arguments as a whole fail in the same
/// way.
pub proof fn lemma_args_failure(args: Seq<ExprView>, n: nat, m: nat, root: BuildInfoView)
    requires
        n <= m <= args.len(),
        eval_args(args, n, root) is Err,
    ensures
        eval_args(args, m, root) == eval_args(args, n, root),
    decreases m,
{
    if m > n {
        lemma_args_failure(args, n, (m - 1) as nat, root);
    }
}

/// Calls the function `name`. No function is defined.
pub fn call_function<'a>(name: &str, args: &Vec<Value<'a>>) -> (result: Result<Value<'a>, Error>)
    ensures
        result_view(result) == function_result(name@, values_view(args@)),
{
    Err(Error::UnknownFunction(name.to_owned()))
}

/// Calls the macro `name`. No macro is defined.
pub fn call_macro<'a>(name: &str, args: &Vec<Value<'a>>) -> (result: Result<Value<'a>, Error>)
    ensures
        result_view(result) == macro_result(name@, values_view(args@)),
{
    Err(Error::UnknownMacro(name.to_owned()))
}

/// Evaluates the arguments of a call from left to right, up to the first that
/// fails.
fn eval_arguments<'a>(args: &Vec<Expr>, root: &'a BuildInfo) -> (result: Result<
    Vec<Value<'a>>,
    Error,
>)
    ensures
        match result {
            Ok(values) => eval_args(exprs_view(args@), args@.len(), root@) == Ok::<
                Seq<ValueView>,
                ErrorView,
            >(values_view(values@)),
            Err(e) => eval_args(exprs_view(args@), args@.len(), root@) == Err::<
                Seq<ValueView>,
                ErrorView,
            >(e@),
        },
    decreases args,
{
    let ghost views = exprs_view(args@);
    let mut values: Vec<Value<'a>> = Vec::new();
    let mut i: usize = 0;
    proof {
        assert(values_view(values@) =~= Seq::<ValueView>::empty());
    }
    while i < args.len()
        invariant
            i <= args.len(),
            views == exprs_view(args@),
            eval_args(views, i as nat, root@) == Ok::<Seq<ValueView>, ErrorView>(
                values_view(values@),
            ),
        decreases args.len() - i,
    {
        match args[i].eval(root) {
            Ok(v) => {
                proof {
                    assert(values_view(values@.push(v)) =~= values_view(values@).push(v@));
                }
                values.push(v);
            },
            Err(e) => {
                proof {
                    lemma_args_failure(views, (i + 1) as nat, args@.len(), root@);
                }
                return Err(e);
            },
        }
        i += 1;
    }
    Ok(values)
}

/// Applies one suffix to a value.
fn apply<'a>(value: Value<'a>, suffix: &Suffix, root: &'a BuildInfo) -> (result: Result<
    Value<'a>,
    Error,
>)
    ensures
        result_view(result) == apply_suffix(value@, suffix@, root@),
    decreases suffix,
{
    match suffix {
        Suffix::Unwrap => {
            let args: Vec<Value<'a>> = Vec::new();
            value.call(OP_UNWRAP, &args)
        },
        Suffix::Field(name) => {
            let mut args: Vec<Value<'a>> = Vec::new();
            args.push(Value::Str(name.clone()));
            value.call(OP_FIELD_ACCESS, &args)
        },
        Suffix::TupleIndex(index) => {
            let mut args: Vec<Value<'a>> = Vec::new();
            args.push(Value::Integer(Integer::from_usize(*index)));
            value.call(OP_TUPLE_INDEX, &args)
        },
        Suffix::ArrayIndex(expr) => {
            match expr.eval(root) {
                Ok(index) => {
                    let mut args: Vec<Value<'a>> = Vec::new();
                    args.push(index);
                    value.call(OP_ARRAY_INDEX, &args)
                },
                Err(e) => Err(e),
            }
        },
        Suffix::FunctionCall(name, args) => {
            proof {
                lemma_call_view(*name, *args);
            }
            match eval_arguments(args, root) {
                Ok(values) => value.call(name.as_str(), &values),
                Err(e) => Err(e),
            }
        },
    }
}

impl AtomicExpr {
    /// Evaluates the atom against the metadata `root`.
    pub fn eval<'a>(&self, root: &'a BuildInfo) -> (result: Result<Value<'a>, Error>)
        ensures
            result_view(result) == eval_atom(self@, root@),
        decreases self,
    {
        match self {
            AtomicExpr::LitBool(value) => Ok(Value::Bool(*value)),
            AtomicExpr::LitChar(value) => Ok(Value::Char(*value)),
            AtomicExpr::LitInt(value) => Ok(Value::Integer(value.clone())),
            AtomicExpr::LitStr(value) => Ok(Value::Str(value.clone())),
            AtomicExpr::BuildInfo => Ok(Value::BuildInfo(root)),
            AtomicExpr::Parenthesized(expr) => expr.eval(root),
            AtomicExpr::FunctionCall(name, args) => {
                proof {
                    lemma_call_view(*name, *args);
                }
                match eval_arguments(args, root) {
                    Ok(values) => call_function(name.as_str(), &values),
                    Err(e) => Err(e),
                }
            },
            AtomicExpr::MacroCall(name, args) => {
                proof {
                    lemma_call_view(*name, *args);
                }
                match eval_arguments(args, root) {
                    Ok(values) => call_macro(name.as_str(), &values),
                    Err(e) => Err(e),
                }
            },
        }
    }
}

impl Expr {
    /// Evaluates the expression against the metadata `root`.
    pub fn eval<'a>(&self, root: &'a BuildInfo) -> (result: Result<Value<'a>, Error>)
        ensures
            result_view(result) == eval_expr(self@, root@),
        decreases self,
    {
        proof {
            lemma_expr_view(*self);
        }
        let mut value = match self.atom.eval(root) {
            Ok(v) => v,
            Err(e) => {
                proof {
                    lemma_prefix_failure(self@, 0, self.suffixes@.len(), root@);
                }
                return Err(e);
            },
        };
        let mut i: usize = 0;
        while i < self.suffixes.len()
            invariant
                i <= self.suffixes.len(),
                self@.suffixes == crate::syntax::suffixes_view(self.suffixes@),
                eval_prefix(self@, i as nat, root@) == Ok::<ValueView, ErrorView>(value@),
            decreases self.suffixes.len() - i,
        {
            match apply(value, &self.suffixes[i], root) {
                Ok(next) => {
                    value = next;
                },
                Err(e) => {
                    proof {
                        lemma_prefix_failure(
                            self@,
                            (i + 1) as nat,
                            self.suffixes@.len(),
                            root@,
                        );
                    }
                    return Err(e);
                },
            }
            i += 1;
        }
        Ok(value)
    }
}

/// The value of a text that is one expression.
pub open spec fn evaluation(text: Seq<char>, root: BuildInfoView) -> Result<ValueView, ErrorView> {
    match whole_expression(text) {
        Ok(e) => eval_expr(e, root),
        Err(e) => Err(ErrorView::Syntax(e)),
    }
}

/// Parses `text` as one expression and evaluates it against the metadata
/// `root`.
pub fn evaluate_expression<'a>(text: &str, root: &'a BuildInfo) -> (result: Result<
    Value<'a>,
    Error,
>)
    ensures
        result_view(result) == evaluation(text@, root@),
{
    match parse_expression(text) {
        Ok(e) => e.eval(root),
        Err(e) => Err(Error::Syntax(e)),
    }
}

} // verus!
