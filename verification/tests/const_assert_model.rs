use isit::const_assert::{ConstAssertInput, ConstAssertions, ConstAssertionsMessage, SourceExpr};
use isit::util::{isit_crate_path, FoundCrate};

fn atom(text: &str) -> SourceExpr {
    SourceExpr::Other { text: text.to_string() }
}

fn call(head: Option<&str>, args: Vec<SourceExpr>, text: &str) -> SourceExpr {
    SourceExpr::Call {
        head: head.map(|h| h.to_string()),
        args,
        text: text.to_string(),
    }
}

fn expand(expr: SourceExpr, message: Option<&str>) -> String {
    ConstAssertInput::parse(expr, message.map(|m| m.to_string())).to_tokens()
}

#[test]
fn single_condition() {
    let tree = ConstAssertions::from_expr(atom("true"));
    assert!(matches!(tree, ConstAssertions::Single(_)));
    assert_eq!(tree.to_tokens(), "(true)");
    assert_eq!(ConstAssertionsMessage(&tree).to_tokens(), "true");
}

#[test]
fn any_group() {
    let expr = call(Some("any"), vec![atom("true"), atom("false")], "any(true, false)");
    let tree = ConstAssertions::from_expr(expr);
    match &tree {
        ConstAssertions::Any(items) => assert_eq!(items.len(), 2),
        _ => panic!("expected an `any` group"),
    }
    assert_eq!(tree.to_tokens(), "((true)||(false))");
    assert_eq!(ConstAssertionsMessage(&tree).to_tokens(), "any(true, false)");
}

#[test]
fn all_group() {
    let expr = call(Some("all"), vec![atom("false"), atom("true")], "all(false, true)");
    let tree = ConstAssertions::from_expr(expr);
    assert!(matches!(tree, ConstAssertions::All(_)));
    assert_eq!(tree.to_tokens(), "((false)&&(true))");
    assert_eq!(ConstAssertionsMessage(&tree).to_tokens(), "all(false, true)");
}

#[test]
fn none_and_not_groups() {
    let none = call(
        Some("none"),
        vec![atom("false"), atom("false"), atom("true")],
        "none(false, false, true)",
    );
    let tree = ConstAssertions::from_expr(none);
    assert!(matches!(tree, ConstAssertions::Not(_)));
    assert_eq!(tree.to_tokens(), "(!(false)&&!(false)&&!(true))");
    assert_eq!(ConstAssertionsMessage(&tree).to_tokens(), "none(false, false, true)");

    let not_many = call(Some("not"), vec![atom("false"), atom("false")], "not(false, false)");
    let tree = ConstAssertions::from_expr(not_many);
    assert!(matches!(tree, ConstAssertions::Not(_)));
    assert_eq!(ConstAssertionsMessage(&tree).to_tokens(), "none(false, false)");

    let not_one = call(Some("not"), vec![atom("true")], "not(true)");
    let tree = ConstAssertions::from_expr(not_one);
    assert_eq!(tree.to_tokens(), "(!(true))");
    assert_eq!(ConstAssertionsMessage(&tree).to_tokens(), "not(true)");

    let none_one = call(Some("none"), vec![atom("true")], "none(true)");
    let tree = ConstAssertions::from_expr(none_one);
    assert_eq!(ConstAssertionsMessage(&tree).to_tokens(), "not(true)");
}

#[test]
fn nested_groups() {
    let expr = call(
        Some("all"),
        vec![
            call(Some("any"), vec![atom("true"), atom("false")], "any(true, false)"),
            call(
                Some("none"),
                vec![atom("false"), call(Some("not"), vec![atom("true")], "not(true)")],
                "none(false, not(true))",
            ),
        ],
        "all(any(true, false), none(false, not(true)))",
    );
    let tree = ConstAssertions::from_expr(expr);
    assert_eq!(tree.to_tokens(), "(((true)||(false))&&(!(false)&&!(!(true))))");
    assert_eq!(
        ConstAssertionsMessage(&tree).to_tokens(),
        "all(any(true, false), none(false, not(true)))"
    );
}

#[test]
fn other_calls_stay_single() {
    let expr = call(Some("is_ok"), vec![atom("x")], "is_ok(x)");
    let tree = ConstAssertions::from_expr(expr);
    assert!(matches!(tree, ConstAssertions::Single(_)));
    assert_eq!(tree.to_tokens(), "(is_ok(x))");
    assert_eq!(ConstAssertionsMessage(&tree).to_tokens(), "is_ok(x)");

    // A path that is not a single identifier does not name a group.
    let expr = call(None, vec![atom("true")], "crate::any(true)");
    let tree = ConstAssertions::from_expr(expr);
    assert!(matches!(tree, ConstAssertions::Single(_)));
    assert_eq!(tree.to_tokens(), "(crate::any(true))");
}

#[test]
fn empty_groups() {
    let tree = ConstAssertions::from_expr(call(Some("all"), vec![], "all()"));
    assert_eq!(tree.to_tokens(), "()");
    assert_eq!(ConstAssertionsMessage(&tree).to_tokens(), "all()");
}

#[test]
fn expansion_with_message() {
    let code = expand(atom("true"), Some("\"This will not panic.\""));
    assert_eq!(code, "const { if !((true)) { panic!(\"This will not panic.\"); } }");
}

#[test]
fn expansion_without_message() {
    let code = expand(atom("false"), None);
    assert_eq!(
        code,
        "const { if !((false)) { panic!(::core::concat!(\"Assertion failed: \", stringify!(false))); } }"
    );
    let expr = call(Some("any"), vec![atom("false"), atom("false")], "any(false, false)");
    let code = expand(expr, None);
    assert_eq!(
        code,
        "const { if !(((false)||(false))) { panic!(::core::concat!(\"Assertion failed: \", stringify!(any(false, false)))); } }"
    );
}

#[test]
fn parse_keeps_message() {
    let input = ConstAssertInput::parse(atom("x"), Some("\"m\"".to_string()));
    assert_eq!(input.message.as_deref(), Some("\"m\""));
    assert!(matches!(input.assertions, ConstAssertions::Single(_)));
    let input = ConstAssertInput::parse(atom("x"), None);
    assert!(input.message.is_none());
}

#[test]
fn source_text_of_expressions() {
    assert_eq!(atom("a == b").text(), "a == b");
    assert_eq!(call(Some("f"), vec![], "f()").text(), "f()");
}

#[test]
fn crate_paths() {
    assert_eq!(isit_crate_path(FoundCrate::Itself), "crate");
    assert_eq!(isit_crate_path(FoundCrate::Name("isit".to_string())), "::isit");
    assert_eq!(isit_crate_path(FoundCrate::Name("my_isit".to_string())), "::my_isit");
}

#[test]
fn not_is_another_name_for_none() {
    let args = || vec![atom("a"), call(Some("f"), vec![atom("b")], "f(b)")];
    let not_tree = ConstAssertions::from_expr(call(Some("not"), args(), "not(a, f(b))"));
    let none_tree = ConstAssertions::from_expr(call(Some("none"), args(), "none(a, f(b))"));
    assert_eq!(not_tree.to_tokens(), none_tree.to_tokens());
    assert_eq!(not_tree.to_tokens(), "(!(a)&&!(f(b)))");
    assert_eq!(
        ConstAssertionsMessage(&not_tree).to_tokens(),
        ConstAssertionsMessage(&none_tree).to_tokens()
    );
}

#[test]
fn reading_twice_gives_the_same_expansion() {
    let make = || call(Some("any"), vec![atom("x"), call(Some("all"), vec![], "all()")], "any(x, all())");
    assert_eq!(expand(make(), None), expand(make(), None));
    assert_eq!(
        expand(make(), None),
        "const { if !(((x)||())) { panic!(::core::concat!(\"Assertion failed: \", stringify!(any(x, all())))); } }"
    );
}

#[test]
fn message_spells_canonical_source() {
    let text = "all(any(a, b), not(c), none(d, e))";
    let expr = call(
        Some("all"),
        vec![
            call(Some("any"), vec![atom("a"), atom("b")], "any(a, b)"),
            call(Some("not"), vec![atom("c")], "not(c)"),
            call(Some("none"), vec![atom("d"), atom("e")], "none(d, e)"),
        ],
        text,
    );
    let tree = ConstAssertions::from_expr(expr);
    assert_eq!(ConstAssertionsMessage(&tree).to_tokens(), text);
}
