//! Adding context to failing results.
use vstd::prelude::*;

use super::generic_error::{capture_backtrace, contexts, innermost, GenericError};

verus! {

/// Adds a line of context to the error of a failing result.
pub trait Context<T> {
    fn context(self, context: &str) -> Result<T, GenericError>;
}

impl<T> Context<T> for Result<T, GenericError> {
    /// An `Ok` passes; an error gets the context on top.
    fn context(self, context: &str) -> (res: Result<T, GenericError>)
        ensures
            match self {
                Ok(v) => res == Ok::<T, GenericError>(v),
                Err(e) => match res {
                    Err(r) => innermost(r) == innermost(e) && contexts(r) == seq![context@] + contexts(e),
                    Ok(_) => false,
                },
            },
    {
        result_context(self, context)
    }
}

impl<T> Context<T> for Option<T> {
    /// `Some` passes; `None` becomes a basic error with the context as message, under the
    /// context itself.
    fn context(self, context: &str) -> (res: Result<T, GenericError>)
        ensures
            match self {
                Some(v) => res == Ok::<T, GenericError>(v),
                None => match res {
                    Err(r) => contexts(r) == seq![context@] && match innermost(r) {
                        GenericError::Basic { message, .. } => message@ == context@,
                        _ => false,
                    },
                    Ok(_) => false,
                },
            },
    {
        option_context(self, context)
    }
}

/// The error of `result.context(c)`: the error of `result` under the context `c`.
pub fn result_context<T>(result: Result<T, GenericError>, context: &str) -> (res: Result<T, GenericError>)
    ensures
        match result {
            Ok(v) => res == Ok::<T, GenericError>(v),
            Err(e) => match res {
                Err(r) => innermost(r) == innermost(e) && contexts(r) == seq![context@] + contexts(e),
                Ok(_) => false,
            },
        },
{
    match result {
        Ok(v) => Ok(v),
        Err(e) => Err(e.context(context)),
    }
}

/// The error of `option.context(c)`: for `None`, a basic error whose message is `c`,
/// under the context `c`.
pub fn option_context<T>(option: Option<T>, context: &str) -> (res: Result<T, GenericError>)
    ensures
        match option {
            Some(v) => res == Ok::<T, GenericError>(v),
            None => match res {
                Err(r) => contexts(r) == seq![context@] && match innermost(r) {
                    GenericError::Basic { message, .. } => message@ == context@,
                    _ => false,
                },
                Ok(_) => false,
            },
        },
{
    match option {
        Some(v) => Ok(v),
        None => {
            let basic = GenericError::Basic { message: context.to_owned(), backtrace: capture_backtrace() };
            assert(contexts(basic) =~= Seq::<Seq<char>>::empty());
            let r = GenericError::Context { source: Box::new(basic), context: context.to_owned() };
            assert(contexts(r) =~= seq![context@]);
            assert(innermost(r) == innermost(basic));
            assert(innermost(basic) == basic);
            Err(r)
        },
    }
}

} // verus!
