//! Definitions of profane words, asked of an AI model once per word and locale
//! and then kept.
use vstd::prelude::*;

verus! {

/// The word definitions; the database and the model are driven by the caller.
pub struct WordDefinitionService {}

/// Why no definition came back from the model.
#[derive(Debug, Clone, PartialEq, Eq)]
pub enum DefinitionError {
    /// The answer had no choice ("I need at least one choice").
    NoChoice,
    /// The first choice had no text ("I need message content").
    NoContent,
}

/// Where a definition comes from.
#[derive(Debug, Clone, PartialEq, Eq)]
pub enum DefinitionSource {
    /// It was stored before.
    Stored(String),
    /// It has to be asked of the model, and then stored.
    Ask,
}

/// The instruction that opens the conversation with the model.
pub open spec fn system_message_spec() -> Seq<char> {
    "You are a helpful assistant."@
}

impl WordDefinitionService {
    /// A stored definition is used as it is; only a missing one is asked for.
    pub fn source(stored: Option<String>) -> (res: DefinitionSource)
        ensures
            match stored {
                Some(d) => res == DefinitionSource::Stored(d),
                None => res == DefinitionSource::Ask,
            },
    {
        match stored {
            Some(d) => DefinitionSource::Stored(d),
            None => DefinitionSource::Ask,
        }
    }

    /// See [`system_message_spec`].
    pub fn system_message() -> (res: String)
        ensures
            res@ == system_message_spec(),
    {
        String::from_str("You are a helpful assistant.")
    }

    /// The definition in the model's answer: the text of its first choice.
    pub fn first_content(choices: &Vec<Option<String>>) -> (res: Result<String, DefinitionError>)
        ensures
            choices@.len() == 0 ==> res == Err::<String, DefinitionError>(DefinitionError::NoChoice),
            choices@.len() > 0 ==> match choices@[0] {
                Some(c) => res matches Ok(d) && d@ == c@,
                None => res == Err::<String, DefinitionError>(DefinitionError::NoContent),
            },
    {
        if choices.len() == 0 {
            return Err(DefinitionError::NoChoice);
        }
        match &choices[0] {
            Some(c) => Ok(c.as_str().to_owned()),
            None => Err(DefinitionError::NoContent),
        }
    }
}

} // verus!
