use persil::instrument::check_shape;
use persil::instrument::parse_args;
use persil::instrument::plan;
use persil::instrument::FnShape;
use persil::instrument::MacroError;

#[test]
fn two_literals_are_accepted() {
    let literals = vec![String::from("parse"), String::from("expression")];
    let args = parse_args(&literals).unwrap();
    assert_eq!(args.category, "parse");
    assert_eq!(args.event, "expression");
}

#[test]
fn single_argument() {
    let literals = vec![String::from("foo")];
    let err = parse_args(&literals).unwrap_err();
    assert!(matches!(err, MacroError::WrongArgumentCount));
    assert_eq!(err.message(), "`trace` macro requires two strings as arguments");
}

#[test]
fn three_arguments_are_rejected() {
    let literals = vec![String::from("a"), String::from("b"), String::from("c")];
    assert!(parse_args(&literals).is_err());
}

#[test]
fn async_functions_are_rejected() {
    let shape = FnShape { is_async: true, is_const: false };
    let err = check_shape(shape).unwrap_err();
    assert!(matches!(err, MacroError::AsyncFunction));
    assert_eq!(err.message(), "tracing async functions is not supported");
}

#[test]
fn const_functions_are_rejected() {
    let shape = FnShape { is_async: false, is_const: true };
    let err = check_shape(shape).unwrap_err();
    assert!(matches!(err, MacroError::ConstFunction));
    assert_eq!(err.message(), "tracing const functions is not supported");
}

#[test]
fn async_is_reported_before_const() {
    let shape = FnShape { is_async: true, is_const: true };
    let err = check_shape(shape).unwrap_err();
    assert!(matches!(err, MacroError::AsyncFunction));
}

#[test]
fn plain_functions_are_accepted() {
    let shape = FnShape { is_async: false, is_const: false };
    assert!(check_shape(shape).is_ok());
    let literals = vec![String::from("calculations"), String::from("factorial")];
    let p = plan(&literals, shape).unwrap();
    assert_eq!(p.category, "calculations");
    assert_eq!(p.event, "factorial");
}

#[test]
fn plan_rejects_wrong_argument_count_first() {
    let literals = vec![String::from("only")];
    let shape = FnShape { is_async: true, is_const: false };
    let err = plan(&literals, shape).unwrap_err();
    assert!(matches!(err, MacroError::WrongArgumentCount));
}
