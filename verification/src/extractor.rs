use vstd::prelude::*;

use crate::context::Context;
use crate::error::Error;
use crate::error::ErrorView;

verus! {

/// How an extraction outcome is pinned down by its specification: `Ok`
/// carries exactly the specified value, and a failure is an
/// `ExtractionError` carrying exactly the specified message.
pub open spec fn extraction_obeys<T>(r: Result<T, Error>, s: Result<T, Seq<char>>) -> bool {
    match s {
        Ok(v) => r matches Ok(got) && got == v,
        Err(msg) => r matches Err(e) && e@ == ErrorView::ExtractionError(msg),
    }
}

/// The capability of materializing a typed value out of a context store:
/// a pure read that fails with a descriptive `ExtractionError` rather
/// than aborting when the data is absent or stored under another shape.
pub trait FromContext: Sized {
    /// What extraction returns, as a function of the store alone; a
    /// failure is given by its message text.
    spec fn from_context_spec(context: Context) -> Result<Self, Seq<char>>;

    /// Materializes `Self` from the store.
    fn from_context(context: &Context) -> (r: Result<Self, Error>)
        ensures
            extraction_obeys(r, Self::from_context_spec(*context)),
    ;
}

} // verus!
