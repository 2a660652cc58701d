use rustify::errors::{Context, GenericAnyhowedError, GenericError};

#[test]
fn unwind() {
    let err = GenericError::StrumParseError(strum::ParseError::VariantNotFound);

    assert!(matches!(
        err,
        GenericError::StrumParseError(strum::ParseError::VariantNotFound),
    ));

    let err = GenericAnyhowedError::new(err).unwind();

    assert!(matches!(
        err,
        GenericError::StrumParseError(strum::ParseError::VariantNotFound),
    ));
}

fn is_context_over_variant_not_found(err: &GenericError) -> bool {
    match err {
        GenericError::Context { context: _, source } => matches!(
            **source,
            GenericError::StrumParseError(strum::ParseError::VariantNotFound)
        ),
        _ => false,
    }
}

#[test]
fn unwind_context() {
    let err = GenericError::StrumParseError(strum::ParseError::VariantNotFound);
    let res: Result<(), _> = Err(err);

    let err = res.context("add context").unwrap_err();

    assert!(is_context_over_variant_not_found(&err));

    let err = GenericAnyhowedError::new(err).unwind();

    assert!(is_context_over_variant_not_found(&err));
}

#[test]
fn unwind_collects_contexts_outermost_first() {
    let err = GenericError::Basic { message: "inner".to_owned(), backtrace: std::backtrace::Backtrace::capture() }
        .context("first")
        .context("second");
    let (inner, contexts) = err.unwind();
    assert!(matches!(inner, GenericError::Basic { ref message, .. } if message == "inner"));
    assert_eq!(contexts, "second\nfirst");
}

#[test]
fn option_context_wraps_basic_error() {
    let none: Option<u8> = None;
    let err = none.context("missing").unwrap_err();
    let (inner, contexts) = err.unwind();
    assert!(matches!(inner, GenericError::Basic { ref message, .. } if message == "missing"));
    assert_eq!(contexts, "missing");
    assert_eq!(Some(3u8).context("unused").unwrap(), 3);
}
