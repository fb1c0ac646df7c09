//! The greeting at the root of the API, under the route name `route`.

use vstd::prelude::*;

verus! {

/// The greeting of the API's index route.
pub fn route() -> (res: &'static str)
    ensures
        res@ == "Hello World!"@,
{
    crate::routes::index::get()
}

} // verus!
