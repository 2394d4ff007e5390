//! Rewriting the expression at a worker site.
//!
//! A `new` expression with exactly one argument that is no spread becomes
//! what the import builder makes of that argument. Every other node becomes an
//! expression that throws when it is evaluated, so that malformed code fails
//! where it stands, at run time, and nowhere else.

use crate::syntax::{throw_expression, throw_expression_view, Expr, ExprOrSpread};
use vstd::prelude::*;

verus! {

/// Why a node cannot be turned into an import.
#[derive(Debug, Clone, Copy, PartialEq, Eq, Hash, Structural)]
pub enum Malformed {
    /// The node is no `new` expression.
    NotConstruction,
    /// One of the arguments is a spread.
    SpreadArgument,
    /// No argument is a spread, and there is none or more than one.
    ArgumentCount,
}

impl Malformed {
    /// The text that the replacement throws.
    pub open spec fn message_view(self) -> Seq<char> {
        match self {
            Malformed::NotConstruction => "visitor must be executed on a CallExpr"@,
            Malformed::SpreadArgument => "spread operator is illegal in new Worker() expressions."@,
            Malformed::ArgumentCount => "new Worker() expressions require at least 1 argument"@,
        }
    }

    /// The text that the replacement throws.
    pub fn message(self) -> (text: &'static str)
        ensures
            text@ == self.message_view(),
    {
        match self {
            Malformed::NotConstruction => "visitor must be executed on a CallExpr",
            Malformed::SpreadArgument => "spread operator is illegal in new Worker() expressions.",
            Malformed::ArgumentCount => "new Worker() expressions require at least 1 argument",
        }
    }
}

/// The arguments of a `new` expression: none where it has no parentheses.
pub open spec fn arguments<X>(args: Option<Vec<ExprOrSpread<X>>>) -> Seq<ExprOrSpread<X>> {
    match args {
        Some(args) => args@,
        None => Seq::empty(),
    }
}

/// Whether one of `args` is a spread.
pub open spec fn has_spread<X>(args: Seq<ExprOrSpread<X>>) -> bool {
    exists|i: int| 0 <= i < args.len() && (#[trigger] args[i]).spread
}

/// What is wrong with `node`, or `None` where it is a `new` expression with
/// exactly one argument that is no spread.
pub open spec fn malformed<X>(node: Expr<X>) -> Option<Malformed> {
    match node {
        Expr::New { callee, args } => {
            if has_spread(arguments(args)) {
                Some(Malformed::SpreadArgument)
            } else if arguments(args).len() != 1 {
                Some(Malformed::ArgumentCount)
            } else {
                None
            }
        },
        _ => Some(Malformed::NotConstruction),
    }
}

/// The one argument of a well-formed `node`.
pub open spec fn sole_argument<X>(node: Expr<X>) -> Expr<X>
    recommends
        malformed(node) is None,
{
    match node {
        Expr::New { callee, args } => arguments(args)[0].expr,
        _ => arbitrary(),
    }
}

/// Whether `replacement` is what `node` is rewritten to: for a well-formed
/// node, a result of `builder` on its argument and `import_externals`; for any
/// other, the expression that throws the message of what is wrong with it.
pub open spec fn rewrites_to<X, F: FnOnce(Expr<X>, bool) -> Expr<X>>(
    node: Expr<X>,
    builder: F,
    import_externals: bool,
    replacement: Expr<X>,
) -> bool {
    match malformed(node) {
        None => call_ensures(builder, (sole_argument(node), import_externals), replacement),
        Some(why) => replacement@ == throw_expression_view::<X>(why.message_view()),
    }
}

/// Whether one of `args` is a spread.
fn any_spread<X>(args: &Vec<ExprOrSpread<X>>) -> (found: bool)
    ensures
        found == has_spread(args@),
{
    let mut i: usize = 0;
    while i < args.len()
        invariant
            i <= args.len(),
            forall|j: int| 0 <= j < i ==> !(#[trigger] args@[j]).spread,
        decreases args.len() - i,
    {
        if args[i].spread {
            return true;
        }
        i += 1;
    }
    false
}

/// The expression that takes the place of `node`.
///
/// `builder` is called at most once, and only for a well-formed node: with
/// its argument and `import_externals`.
pub fn rewrite<X, F>(node: Expr<X>, builder: F, import_externals: bool) -> (replacement: Expr<X>)
    where F: FnOnce(Expr<X>, bool) -> Expr<X>
    requires
        malformed(node) is None ==> call_requires(
            builder,
            (sole_argument(node), import_externals),
        ),
    ensures
        rewrites_to(node, builder, import_externals, replacement),
{
    match node {
        Expr::New { callee: _, args } => {
            let mut args: Vec<ExprOrSpread<X>> = match args {
                Some(args) => args,
                None => Vec::new(),
            };
            if any_spread(&args) {
                throw_expression(Malformed::SpreadArgument.message())
            } else {
                match args.pop() {
                    Some(last) => {
                        if args.len() == 0 {
                            builder(last.expr, import_externals)
                        } else {
                            throw_expression(Malformed::ArgumentCount.message())
                        }
                    },
                    None => throw_expression(Malformed::ArgumentCount.message()),
                }
            }
        },
        _ => throw_expression(Malformed::NotConstruction.message()),
    }
}

/// A `new` expression with exactly one argument that is no spread is
/// replaced by what the builder makes of that argument and the flag.
pub proof fn lemma_single_argument_imports<X, F: FnOnce(Expr<X>, bool) -> Expr<X>>(
    callee: Box<Expr<X>>,
    args: Vec<ExprOrSpread<X>>,
    builder: F,
    import_externals: bool,
    replacement: Expr<X>,
)
    requires
        args@.len() == 1,
        !args@[0].spread,
        rewrites_to(Expr::New { callee, args: Some(args) }, builder, import_externals, replacement),
    ensures
        call_ensures(builder, (args@[0].expr, import_externals), replacement),
{
}

/// Rewriting is repeatable: with a builder that makes one expression of one
/// argument and flag, two replacements of one node are the same expression.
pub proof fn lemma_rewrite_repeatable<X, F: FnOnce(Expr<X>, bool) -> Expr<X>>(
    node: Expr<X>,
    builder: F,
    import_externals: bool,
    first: Expr<X>,
    second: Expr<X>,
)
    requires
        rewrites_to(node, builder, import_externals, first),
        rewrites_to(node, builder, import_externals, second),
        forall|key: Expr<X>, flag: bool, a: Expr<X>, b: Expr<X>|
            call_ensures(builder, (key, flag), a) && call_ensures(builder, (key, flag), b) ==> a@
                == b@,
    ensures
        first@ == second@,
{
}

/// A `new` expression with a spread among its arguments is replaced by the
/// expression that throws the message on spreads.
pub proof fn lemma_spread_argument_throws<X, F: FnOnce(Expr<X>, bool) -> Expr<X>>(
    callee: Box<Expr<X>>,
    args: Vec<ExprOrSpread<X>>,
    builder: F,
    import_externals: bool,
    replacement: Expr<X>,
)
    requires
        has_spread(args@),
        rewrites_to(Expr::New { callee, args: Some(args) }, builder, import_externals, replacement),
    ensures
        replacement@ == throw_expression_view::<X>(
            "spread operator is illegal in new Worker() expressions."@,
        ),
{
}

/// A `new` expression without arguments, with or without parentheses, is
/// replaced by the expression that throws the message on missing arguments.
pub proof fn lemma_no_argument_throws<X, F: FnOnce(Expr<X>, bool) -> Expr<X>>(
    callee: Box<Expr<X>>,
    args: Option<Vec<ExprOrSpread<X>>>,
    builder: F,
    import_externals: bool,
    replacement: Expr<X>,
)
    requires
        arguments(args).len() == 0,
        rewrites_to(Expr::New { callee, args }, builder, import_externals, replacement),
    ensures
        replacement@ == throw_expression_view::<X>(
            "new Worker() expressions require at least 1 argument"@,
        ),
{
}

/// A `new` expression with more than one argument, none of them a spread, is
/// replaced by the expression that throws the message on missing arguments.
pub proof fn lemma_several_arguments_throw<X, F: FnOnce(Expr<X>, bool) -> Expr<X>>(
    callee: Box<Expr<X>>,
    args: Vec<ExprOrSpread<X>>,
    builder: F,
    import_externals: bool,
    replacement: Expr<X>,
)
    requires
        args@.len() > 1,
        !has_spread(args@),
        rewrites_to(Expr::New { callee, args: Some(args) }, builder, import_externals, replacement),
    ensures
        replacement@ == throw_expression_view::<X>(
            "new Worker() expressions require at least 1 argument"@,
        ),
{
}

/// A node that is no `new` expression is replaced by the expression that
/// throws the message on misplaced visitors.
pub proof fn lemma_other_node_throws<X, F: FnOnce(Expr<X>, bool) -> Expr<X>>(
    node: Expr<X>,
    builder: F,
    import_externals: bool,
    replacement: Expr<X>,
)
    requires
        !(node is New),
        rewrites_to(node, builder, import_externals, replacement),
    ensures
        replacement@ == throw_expression_view::<X>("visitor must be executed on a CallExpr"@),
{
}

} // verus!
