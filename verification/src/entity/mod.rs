//! The values that the database stores for the application's enumerations.
pub mod track_status;
pub mod user;
pub mod user_whitelist;

use vstd::prelude::*;

verus! {

/// A stored value that names no variant.
#[derive(PartialEq, Eq, Clone, Debug)]
pub struct UnknownValue {
    pub value: String,
}

} // verus!
