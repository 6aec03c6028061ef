use s3_ingest::expression::{
    CompilerState, Error, Expr, ExpressionError, Literal, Not, Object, Path, PathError, State,
    TypeDef, Value, ValueConstraint, ValueError, ValueKind,
};

#[test]
fn not() {
    let cases = vec![
        (
            Err("path error".to_string()),
            Not::new(Box::new(Path::from("foo").into())),
        ),
        (
            Ok(Some(false.into())),
            Not::new(Box::new(Literal::from(true).into())),
        ),
        (
            Ok(Some(true.into())),
            Not::new(Box::new(Literal::from(false).into())),
        ),
        (
            Err("not operation error".to_string()),
            Not::new(Box::new(Literal::from("not a bool").into())),
        ),
    ];

    let mut state = State::default();
    let mut object = Object::default();

    for (exp, func) in cases {
        let got = func
            .execute(&mut state, &mut object)
            .map_err(|e| e.to_string());

        assert_eq!(got, exp);
    }
}

#[test]
fn not_type_def_is_an_optional_fallible_boolean() {
    let not = Not::new(Box::new(Expr::Noop));
    assert_eq!(
        not.type_def(&CompilerState::default()),
        TypeDef {
            fallible: true,
            optional: true,
            constraint: ValueConstraint::Exact(ValueKind::Boolean),
        }
    );
}

#[test]
fn not_of_nothing_is_nothing() {
    let not = Not::new(Box::new(Expr::Noop));
    let mut state = State::default();
    let mut object = Object::default();
    assert_eq!(not.execute(&mut state, &mut object), Ok(None));
}

#[test]
fn not_names_the_kind_it_found() {
    let mut state = State::default();
    let mut object = Object::default();
    let not = Not::new(Box::new(Expr::Literal(Literal::new(Value::Integer(7)))));
    assert_eq!(
        not.execute(&mut state, &mut object),
        Err(ExpressionError::Not(Error::Value(ValueError::Expected(
            ValueKind::Boolean,
            ValueKind::Integer
        ))))
    );
    let not = Not::new(Box::new(Expr::Literal(Literal::new(Value::Null))));
    assert_eq!(
        not.execute(&mut state, &mut object),
        Err(ExpressionError::Not(Error::Value(ValueError::Expected(
            ValueKind::Boolean,
            ValueKind::Null
        ))))
    );
}

#[test]
fn not_reads_a_field_of_the_object() {
    let mut state = State::default();
    let mut object = Object::default();
    object.insert("foo".to_string(), Value::Boolean(true));
    let not = Not::new(Box::new(Path::from("foo").into()));
    assert_eq!(
        not.execute(&mut state, &mut object),
        Ok(Some(Value::Boolean(false)))
    );
    object.insert("foo".to_string(), Value::Boolean(false));
    assert_eq!(
        not.execute(&mut state, &mut object),
        Ok(Some(Value::Boolean(true)))
    );
    assert_eq!(object.get("foo"), Some(&Value::Boolean(false)));
    assert_eq!(object.get("bar"), None);
}

#[test]
fn not_of_not_gives_the_boolean_back() {
    let mut state = State::default();
    let mut object = Object::default();
    let inner = Not::new(Box::new(Literal::from(true).into()));
    let outer = Not::new(Box::new(inner.into()));
    assert_eq!(
        outer.execute(&mut state, &mut object),
        Ok(Some(Value::Boolean(true)))
    );
}

#[test]
fn missing_path_is_named_in_the_error() {
    let mut state = State::default();
    let mut object = Object::default();
    let expr: Expr = Path::new("foo").into();
    assert_eq!(
        expr.execute(&mut state, &mut object),
        Err(ExpressionError::Path(PathError::Missing("foo".to_string())))
    );
}

#[test]
fn error_texts() {
    let e = Error::Value(ValueError::Expected(ValueKind::Boolean, ValueKind::Bytes));
    assert_eq!(e.to_string(), "invalid value kind");
    assert_eq!(ExpressionError::Not(e).to_string(), "not operation error");
    assert_eq!(Value::Bytes("x".to_string()).kind(), ValueKind::Bytes);
}
