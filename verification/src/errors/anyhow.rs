//! An error taken apart into its innermost error and its outer context, and put back.
use vstd::prelude::*;

use super::generic_error::GenericError;

verus! {

/// A [`GenericError`] with its outer context layer held apart.
pub struct GenericAnyhowedError(pub GenericError, pub Option<String>);

impl GenericAnyhowedError {
    /// Takes off the outer context layer, if there is one.
    pub fn new(err: GenericError) -> (res: Self)
        ensures
            match err {
                GenericError::Context { context, source } => res.0 == *source && res.1 == Some(context),
                other => res.0 == other && res.1 is None,
            },
    {
        match err {
            GenericError::Context { context, source } => GenericAnyhowedError(*source, Some(context)),
            other => GenericAnyhowedError(other, None),
        }
    }

    /// Puts the outer context layer back.
    pub fn unwind(self) -> (res: GenericError)
        ensures
            match self.1 {
                None => res == self.0,
                Some(context) => res == (GenericError::Context { context, source: Box::new(self.0) }),
            },
    {
        match self.1 {
            None => self.0,
            Some(context) => GenericError::Context { context, source: Box::new(self.0) },
        }
    }
}

/// Taking an error apart and putting it back gives the same error.
pub proof fn lemma_new_then_unwind(err: GenericError, apart: GenericAnyhowedError, back: GenericError)
    requires
        match err {
            GenericError::Context { context, source } => apart.0 == *source && apart.1 == Some(context),
            other => apart.0 == other && apart.1 is None,
        },
        match apart.1 {
            None => back == apart.0,
            Some(context) => back == (GenericError::Context { context, source: Box::new(apart.0) }),
        },
    ensures
        back == err,
{
}

} // verus!
