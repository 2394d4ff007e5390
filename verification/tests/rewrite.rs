use std::cell::Cell;
use worker_reference::rewrite::{rewrite, Malformed};
use worker_reference::syntax::{throw_expression, Expr, ExprOrSpread, Stmt};

const NO_ARGUMENT: &str = "new Worker() expressions require at least 1 argument";
const SPREAD: &str = "spread operator is illegal in new Worker() expressions.";
const NOT_A_CONSTRUCTION: &str = "visitor must be executed on a CallExpr";

type Node = Expr<String>;

fn other(text: &str) -> Node {
    Expr::Other(text.to_string())
}

fn plain(expr: Node) -> ExprOrSpread<String> {
    ExprOrSpread { spread: false, expr }
}

fn spread(expr: Node) -> ExprOrSpread<String> {
    ExprOrSpread { spread: true, expr }
}

fn new_worker(args: Option<Vec<ExprOrSpread<String>>>) -> Node {
    Expr::New { callee: Box::new(Expr::Ident("Worker".to_string())), args }
}

/// The import that the builder of these tests makes of `key`.
fn import(key: Node, import_externals: bool) -> Node {
    Expr::Call {
        callee: Box::new(Expr::Ident(
            if import_externals { "__import_external__" } else { "__import__" }.to_string(),
        )),
        args: vec![plain(key)],
    }
}

fn arguments(args: &[ExprOrSpread<String>]) -> String {
    let parts: Vec<String> = args
        .iter()
        .map(|arg| format!("{}{}", if arg.spread { "..." } else { "" }, source(&arg.expr)))
        .collect();
    parts.join(", ")
}

/// The text of an expression.
fn source(expr: &Node) -> String {
    match expr {
        Expr::Ident(name) => name.clone(),
        Expr::Str(value) => format!("\"{}\"", value),
        Expr::New { callee, args: Some(args) } => {
            format!("new {}({})", source(callee), arguments(args))
        }
        Expr::New { callee, args: None } => format!("new {}", source(callee)),
        Expr::Call { callee, args } => format!("{}({})", source(callee), arguments(args)),
        Expr::Paren(inner) => format!("({})", source(inner)),
        Expr::Arrow { body } => {
            let statements: Vec<String> = body
                .iter()
                .map(|statement| match statement {
                    Stmt::Throw(arg) => format!("throw {};", source(arg)),
                })
                .collect();
            format!("() => {{ {} }}", statements.join(" "))
        }
        Expr::Other(text) => text.clone(),
    }
}

#[test]
fn messages_are_exact() {
    assert_eq!(Malformed::ArgumentCount.message(), NO_ARGUMENT);
    assert_eq!(Malformed::SpreadArgument.message(), SPREAD);
    assert_eq!(Malformed::NotConstruction.message(), NOT_A_CONSTRUCTION);
}

#[test]
fn single_argument_becomes_the_import_of_the_builder() {
    let node = new_worker(Some(vec![plain(Expr::Str("./w.js".to_string()))]));
    let replacement = rewrite(node, import, false);
    assert_eq!(replacement, import(Expr::Str("./w.js".to_string()), false));
    assert_eq!(source(&replacement), "__import__(\"./w.js\")");
}

#[test]
fn single_argument_is_handed_over_unchanged() {
    let argument = Expr::New {
        callee: Box::new(Expr::Ident("URL".to_string())),
        args: Some(vec![plain(Expr::Str("./w.js".to_string())), plain(other("import.meta.url"))]),
    };
    let expected = Expr::New {
        callee: Box::new(Expr::Ident("URL".to_string())),
        args: Some(vec![plain(Expr::Str("./w.js".to_string())), plain(other("import.meta.url"))]),
    };
    let seen: Cell<Option<(Node, bool)>> = Cell::new(None);
    let replacement = rewrite(
        new_worker(Some(vec![plain(argument)])),
        |key, flag| {
            seen.set(Some((key, flag)));
            other("imported")
        },
        true,
    );
    assert_eq!(replacement, other("imported"));
    assert_eq!(seen.take(), Some((expected, true)));
}

#[test]
fn import_externals_reaches_the_builder() {
    let with = rewrite(new_worker(Some(vec![plain(other("url"))])), import, true);
    let without = rewrite(new_worker(Some(vec![plain(other("url"))])), import, false);
    assert_eq!(source(&with), "__import_external__(url)");
    assert_eq!(source(&without), "__import__(url)");
}

#[test]
fn callee_does_not_matter() {
    let node = Expr::New {
        callee: Box::new(other("self.SharedWorker")),
        args: Some(vec![plain(other("url"))]),
    };
    assert_eq!(rewrite(node, import, false), import(other("url"), false));
}

#[test]
fn rewriting_twice_gives_the_same_expression() {
    let first = rewrite(new_worker(Some(vec![plain(other("url"))])), import, true);
    let second = rewrite(new_worker(Some(vec![plain(other("url"))])), import, true);
    assert_eq!(first, second);
    let first = rewrite(new_worker(Some(vec![spread(other("args"))])), import, true);
    let second = rewrite(new_worker(Some(vec![spread(other("args"))])), import, true);
    assert_eq!(first, second);
}

#[test]
fn spread_argument_throws() {
    let replacement = rewrite(new_worker(Some(vec![spread(other("args"))])), import, false);
    assert_eq!(replacement, throw_expression(SPREAD));
    assert_eq!(
        source(&replacement),
        "(() => { throw new Error(\"spread operator is illegal in new Worker() expressions.\"); })()"
    );
}

#[test]
fn spread_among_several_arguments_throws() {
    let first = new_worker(Some(vec![spread(other("args")), plain(other("options"))]));
    assert_eq!(rewrite(first, import, false), throw_expression(SPREAD));
    let last = new_worker(Some(vec![plain(other("url")), spread(other("rest"))]));
    assert_eq!(rewrite(last, import, true), throw_expression(SPREAD));
    let middle = new_worker(Some(vec![
        plain(other("a")),
        plain(other("b")),
        spread(other("c")),
        plain(other("d")),
    ]));
    assert_eq!(rewrite(middle, import, true), throw_expression(SPREAD));
}

#[test]
fn no_argument_throws() {
    let replacement = rewrite(new_worker(Some(vec![])), import, false);
    assert_eq!(replacement, throw_expression(NO_ARGUMENT));
    assert_eq!(
        source(&replacement),
        "(() => { throw new Error(\"new Worker() expressions require at least 1 argument\"); })()"
    );
}

#[test]
fn no_parentheses_throws() {
    assert_eq!(rewrite(new_worker(None), import, true), throw_expression(NO_ARGUMENT));
}

#[test]
fn several_arguments_throw() {
    let two = new_worker(Some(vec![plain(other("url")), plain(other("options"))]));
    assert_eq!(rewrite(two, import, false), throw_expression(NO_ARGUMENT));
    let three =
        new_worker(Some(vec![plain(other("a")), plain(other("b")), plain(other("c"))]));
    assert_eq!(rewrite(three, import, false), throw_expression(NO_ARGUMENT));
}

#[test]
fn other_nodes_throw() {
    let call = Expr::Call {
        callee: Box::new(Expr::Ident("Worker".to_string())),
        args: vec![plain(Expr::Str("./w.js".to_string()))],
    };
    let nodes: Vec<Node> = vec![
        call,
        Expr::Ident("Worker".to_string()),
        Expr::Str("./w.js".to_string()),
        Expr::Paren(Box::new(new_worker(Some(vec![plain(other("url"))])))),
        Expr::Arrow { body: vec![] },
        other("a + b"),
    ];
    for node in nodes {
        let replacement = rewrite(node, import, false);
        assert_eq!(replacement, throw_expression(NOT_A_CONSTRUCTION));
        assert_eq!(
            source(&replacement),
            "(() => { throw new Error(\"visitor must be executed on a CallExpr\"); })()"
        );
    }
}

#[test]
fn builder_is_not_called_for_a_malformed_node() {
    let calls = Cell::new(0u32);
    let nodes: Vec<Node> = vec![
        new_worker(None),
        new_worker(Some(vec![])),
        new_worker(Some(vec![spread(other("args"))])),
        new_worker(Some(vec![plain(other("a")), plain(other("b"))])),
        other("x"),
    ];
    for node in nodes {
        rewrite(
            node,
            |key, _| {
                calls.set(calls.get() + 1);
                key
            },
            false,
        );
    }
    assert_eq!(calls.get(), 0);
}

#[test]
fn builder_is_called_once_for_a_well_formed_node() {
    let calls = Cell::new(0u32);
    rewrite(
        new_worker(Some(vec![plain(other("url"))])),
        |key, _| {
            calls.set(calls.get() + 1);
            key
        },
        false,
    );
    assert_eq!(calls.get(), 1);
}

#[test]
fn worker_scripts_end_to_end() {
    let resolved = rewrite(
        new_worker(Some(vec![plain(Expr::Str("./w.js".to_string()))])),
        import,
        false,
    );
    assert_eq!(resolved, import(Expr::Str("./w.js".to_string()), false));

    let spread_only = rewrite(new_worker(Some(vec![spread(other("args"))])), import, false);
    assert_eq!(
        source(&spread_only),
        "(() => { throw new Error(\"spread operator is illegal in new Worker() expressions.\"); })()"
    );

    let empty = rewrite(new_worker(Some(vec![])), import, false);
    assert_eq!(empty, throw_expression(NO_ARGUMENT));
}
