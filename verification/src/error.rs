use vstd::prelude::*;

verus! {

/// The closed set of reasons a single authorization attempt can fail.
/// Every failure is terminal for the attempt that produced it.
#[derive(Debug)]
pub enum Error {
    /// The synchronous phase returned `Deny`.
    PermissionCheckDenied,
    /// The second phase returned `Deny`.
    PermissionBalanceDenied,
    /// Reserved for ownership-specific denial; the orchestrator never
    /// produces it on its own.
    PermissionBalanceNonOwner,
    /// A required value or connection was absent from the context store,
    /// or was stored under another shape than the one asked for.
    ExtractionError(String),
}

/// Extraction failures share the authorization error taxonomy.
pub type ExtractionError = Error;

/// The mathematical shape of an `Error`: an extraction message is read as
/// its character sequence, so contracts can pin a failure down to its text.
pub ghost enum ErrorView {
    PermissionCheckDenied,
    PermissionBalanceDenied,
    PermissionBalanceNonOwner,
    ExtractionError(Seq<char>),
}

impl View for Error {
    type V = ErrorView;

    open spec fn view(&self) -> ErrorView {
        match self {
            Error::PermissionCheckDenied => ErrorView::PermissionCheckDenied,
            Error::PermissionBalanceDenied => ErrorView::PermissionBalanceDenied,
            Error::PermissionBalanceNonOwner => ErrorView::PermissionBalanceNonOwner,
            Error::ExtractionError(msg) => ErrorView::ExtractionError(msg@),
        }
    }
}

} // verus!
