//! The API's index route.

use vstd::prelude::*;

verus! {

/// The greeting of the API's index route.
pub fn get() -> (res: &'static str)
    ensures
        res@ == "Hello World!"@,
{
    "Hello World!"
}

} // verus!
