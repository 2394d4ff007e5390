//! The expressions that a rewrite reads and writes.

use vstd::prelude::*;
use vstd::string::StringExecFns;

verus! {

/// An expression, as far as this library looks into it: the forms that a
/// rewrite reads or writes. An expression of any other form is carried along
/// unread, as a value of type `X`.
#[derive(Debug, PartialEq, Eq)]
#[allow(inconsistent_fields)]
pub enum Expr<X> {
    /// A reference to a name, such as `Error`.
    Ident(String),
    /// A string literal.
    Str(String),
    /// `new callee(args)`. Without the parentheses, `args` is `None`.
    New { callee: Box<Expr<X>>, args: Option<Vec<ExprOrSpread<X>>> },
    /// `callee(args)`.
    Call { callee: Box<Expr<X>>, args: Vec<ExprOrSpread<X>> },
    /// `(inner)`.
    Paren(Box<Expr<X>>),
    /// `() => { body }`.
    Arrow { body: Vec<Stmt<X>> },
    /// An expression that is not looked into. The node at a site is given in
    /// this way only where it is none of the above: a `new` expression hidden
    /// in here counts as another kind of node.
    Other(X),
}

/// One argument of a call: `expr`, or `...expr` where `spread` is set.
#[derive(Debug, PartialEq, Eq)]
pub struct ExprOrSpread<X> {
    pub spread: bool,
    pub expr: Expr<X>,
}

/// A statement in the body of a function.
#[derive(Debug, PartialEq, Eq)]
pub enum Stmt<X> {
    /// `throw arg;`
    Throw(Expr<X>),
}

/// What an [`Expr`] is, with each string as the sequence of its characters.
#[allow(inconsistent_fields)]
pub enum ExprView<X> {
    Ident(Seq<char>),
    Str(Seq<char>),
    New { callee: Box<ExprView<X>>, args: Option<Seq<ExprOrSpreadView<X>>> },
    Call { callee: Box<ExprView<X>>, args: Seq<ExprOrSpreadView<X>> },
    Paren(Box<ExprView<X>>),
    Arrow { body: Seq<StmtView<X>> },
    Other(X),
}

/// What an [`ExprOrSpread`] is.
pub struct ExprOrSpreadView<X> {
    pub spread: bool,
    pub expr: ExprView<X>,
}

/// What a [`Stmt`] is.
pub enum StmtView<X> {
    Throw(ExprView<X>),
}

impl<X> Expr<X> {
    /// What this expression is: see [`ExprView`].
    pub open spec fn spec_view(self) -> ExprView<X>
        decreases self,
    {
        match self {
            Expr::Ident(name) => ExprView::Ident(name@),
            Expr::Str(value) => ExprView::Str(value@),
            Expr::New { callee, args } => ExprView::New {
                callee: Box::new(callee.spec_view()),
                args: match args {
                    Some(args) => Some(
                        Seq::new(
                            args@.len(),
                            |i: int|
                                if 0 <= i < args@.len() {
                                    args@[i].spec_view()
                                } else {
                                    arbitrary()
                                },
                        ),
                    ),
                    None => None,
                },
            },
            Expr::Call { callee, args } => ExprView::Call {
                callee: Box::new(callee.spec_view()),
                args: Seq::new(
                    args@.len(),
                    |i: int|
                        if 0 <= i < args@.len() {
                            args@[i].spec_view()
                        } else {
                            arbitrary()
                        },
                ),
            },
            Expr::Paren(inner) => ExprView::Paren(Box::new(inner.spec_view())),
            Expr::Arrow { body } => ExprView::Arrow {
                body: Seq::new(
                    body@.len(),
                    |i: int|
                        if 0 <= i < body@.len() {
                            body@[i].spec_view()
                        } else {
                            arbitrary()
                        },
                ),
            },
            Expr::Other(other) => ExprView::Other(other),
        }
    }
}

impl<X> ExprOrSpread<X> {
    /// What this argument is: see [`ExprOrSpreadView`].
    pub open spec fn spec_view(self) -> ExprOrSpreadView<X>
        decreases self,
    {
        ExprOrSpreadView { spread: self.spread, expr: self.expr.spec_view() }
    }
}

impl<X> Stmt<X> {
    /// What this statement is: see [`StmtView`].
    pub open spec fn spec_view(self) -> StmtView<X>
        decreases self,
    {
        match self {
            Stmt::Throw(arg) => StmtView::Throw(arg.spec_view()),
        }
    }
}

impl<X> View for Expr<X> {
    type V = ExprView<X>;

    open spec fn view(&self) -> ExprView<X> {
        self.spec_view()
    }
}

impl<X> View for ExprOrSpread<X> {
    type V = ExprOrSpreadView<X>;

    open spec fn view(&self) -> ExprOrSpreadView<X> {
        self.spec_view()
    }
}

impl<X> View for Stmt<X> {
    type V = StmtView<X>;

    open spec fn view(&self) -> StmtView<X> {
        self.spec_view()
    }
}

/// What `(() => { throw new Error(message); })()` is: a call without arguments
/// of a parenthesised arrow function whose body is the one statement that
/// throws `new Error(message)`, with `message` as a string literal.
pub open spec fn throw_expression_view<X>(message: Seq<char>) -> ExprView<X> {
    ExprView::Call {
        callee: Box::new(
            ExprView::Paren(
                Box::new(
                    ExprView::Arrow {
                        body: seq![
                            StmtView::Throw(
                                ExprView::New {
                                    callee: Box::new(ExprView::Ident("Error"@)),
                                    args: Some(
                                        seq![
                                            ExprOrSpreadView {
                                                spread: false,
                                                expr: ExprView::Str(message),
                                            },
                                        ],
                                    ),
                                },
                            ),
                        ],
                    },
                ),
            ),
        ),
        args: Seq::empty(),
    }
}

/// Builds `(() => { throw new Error(message); })()`: an expression that can
/// stand wherever an expression can, and throws as soon as it is evaluated.
pub fn throw_expression<X>(message: &str) -> (thrown: Expr<X>)
    ensures
        thrown@ == throw_expression_view::<X>(message@),
{
    let literal: Expr<X> = Expr::Str(String::from_str(message));
    let ghost literal_view = ExprView::<X>::Str(message@);
    assert(literal@ == literal_view);
    let mut error_args: Vec<ExprOrSpread<X>> = Vec::new();
    error_args.push(ExprOrSpread { spread: false, expr: literal });
    let ghost args_view = seq![ExprOrSpreadView::<X> { spread: false, expr: literal_view }];
    assert(error_args@[0]@ == args_view[0]);

    let constructor: Expr<X> = Expr::Ident(String::from_str("Error"));
    let ghost constructor_view = ExprView::<X>::Ident("Error"@);
    assert(constructor@ == constructor_view);
    let error: Expr<X> = Expr::New { callee: Box::new(constructor), args: Some(error_args) };
    let ghost error_view = ExprView::<X>::New {
        callee: Box::new(constructor_view),
        args: Some(args_view),
    };
    assert(error@ == error_view) by {
        assert(error@->New_args->0 =~= args_view);
    }

    let mut body: Vec<Stmt<X>> = Vec::new();
    body.push(Stmt::Throw(error));
    let ghost body_view = seq![StmtView::<X>::Throw(error_view)];
    assert(body@[0]@ == body_view[0]);
    let arrow: Expr<X> = Expr::Arrow { body };
    let ghost arrow_view = ExprView::<X>::Arrow { body: body_view };
    assert(arrow@ == arrow_view) by {
        assert(arrow@->Arrow_body =~= body_view);
    }

    let paren: Expr<X> = Expr::Paren(Box::new(arrow));
    let ghost paren_view = ExprView::<X>::Paren(Box::new(arrow_view));
    assert(paren@ == paren_view);
    let thrown: Expr<X> = Expr::Call { callee: Box::new(paren), args: Vec::new() };
    assert(thrown@ == ExprView::<X>::Call { callee: Box::new(paren_view), args: Seq::empty() }) by {
        assert(thrown@->Call_args =~= Seq::empty());
    }
    thrown
}

} // verus!
