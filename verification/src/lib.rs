//! A two-phase authorization gate: an action is checked first by a cheap
//! synchronous rule and then by a slower rule that may consult external
//! state reached through a per-request context store.

pub mod context;
pub mod error;
pub mod extractor;
pub mod permissions;

pub use context::Context;
pub use context::ContextView;
pub use context::DataKind;
pub use context::DataValue;
pub use error::Error;
pub use error::ErrorView;
pub use error::ExtractionError;
pub use extractor::FromContext;

use vstd::prelude::*;

verus! {

/// The outcome of one phase of an authorization check.
#[derive(Clone, Copy, Debug, PartialEq, Eq, Structural)]
pub enum Permission {
    Allow,
    Deny,
}

/// Relies on std's equality on `str`: true exactly when the two strings
/// hold the same characters.
#[verifier::external_body]
pub(crate) fn str_eq(a: &str, b: &str) -> (r: bool)
    ensures
        r == (a@ == b@),
{
    a == b
}

/// The second phase's answer, with any extraction message read as its
/// character sequence.
pub open spec fn phase_view(r: Result<Permission, Error>) -> Result<Permission, ErrorView> {
    match r {
        Ok(p) => Ok(p),
        Err(e) => Err(e@),
    }
}

/// An authorization attempt's outcome, with any extraction message read
/// as its character sequence.
pub open spec fn outcome_view(r: Result<(), Error>) -> Result<(), ErrorView> {
    match r {
        Ok(u) => Ok(u),
        Err(e) => Err(e@),
    }
}

/// A concrete permission rule: a fast synchronous pre-check and a slower
/// full check that may consult external state reached through the store.
/// A rule holds no mutable state of its own; each phase's answer is a
/// function of the rule and the store alone.
pub trait AuthorizeAction: Sized {
    /// What the synchronous phase answers. It is pure and cannot fail;
    /// it only ever produces a `Permission`.
    spec fn check_spec(&self, context: Context) -> Permission;

    /// What the second phase answers; the store carries every handle
    /// the phase may consult, and only this phase may fail.
    spec fn balance_spec(&self, context: Context) -> Result<Permission, ErrorView>;

    /// The synchronous, side-effect-free rule; it exists to reject
    /// obviously-disallowed actions before any expensive work runs.
    fn check(&self, context: &Context) -> (p: Permission)
        ensures
            p == self.check_spec(*context),
    ;

    /// The full rule; it may fail, for instance when a required value or
    /// connection is missing from the store.
    fn balance(&self, context: &Context) -> (r: Result<Permission, Error>)
        ensures
            phase_view(r) == self.balance_spec(*context),
    ;
}

/// The two-phase protocol as a function of the two phases' answers: a
/// denial at either phase wins, and only two `Allow`s succeed.
pub open spec fn mayi_spec(check: Permission, balance: Result<Permission, ErrorView>) -> Result<
    (),
    ErrorView,
> {
    match check {
        Permission::Deny => Err(ErrorView::PermissionCheckDenied),
        Permission::Allow => match balance {
            Ok(Permission::Allow) => Ok(()),
            Ok(Permission::Deny) => Err(ErrorView::PermissionBalanceDenied),
            Err(e) => Err(e),
        },
    }
}

/// Settles the attempt from what the second phase answered: a failure
/// passes through verbatim, a denial becomes `PermissionBalanceDenied`.
pub fn settle_balance(balance: Result<Permission, Error>) -> (r: Result<(), Error>)
    ensures
        outcome_view(r) == mayi_spec(Permission::Allow, phase_view(balance)),
{
    match balance {
        Ok(Permission::Allow) => Ok(()),
        Ok(Permission::Deny) => Err(Error::PermissionBalanceDenied),
        Err(e) => Err(e),
    }
}

/// The orchestrator. It runs the synchronous check and, on a denial,
/// stops with `PermissionCheckDenied` without ever invoking the second
/// phase; otherwise the second phase settles the outcome. Every
/// invocation re-runs both phases from scratch: nothing is cached,
/// because the state behind the store may have changed between calls.
pub fn mayi<A: AuthorizeAction>(context: &Context, action: &A) -> (r: Result<(), Error>)
    ensures
        outcome_view(r) == mayi_spec(action.check_spec(*context), action.balance_spec(*context)),
{
    match action.check(context) {
        Permission::Deny => Err(Error::PermissionCheckDenied),
        Permission::Allow => settle_balance(action.balance(context)),
    }
}

/// Law: when the synchronous check denies, the outcome is
/// `PermissionCheckDenied`, whatever the second phase would have
/// answered.
pub proof fn lemma_check_denied_wins(balance: Result<Permission, ErrorView>)
    ensures
        mayi_spec(Permission::Deny, balance) == Err::<(), ErrorView>(
            ErrorView::PermissionCheckDenied,
        ),
{
}

/// Law: when the check allows and the second phase answers a denial,
/// the outcome is `PermissionBalanceDenied`.
pub proof fn lemma_balance_denied()
    ensures
        mayi_spec(Permission::Allow, Ok(Permission::Deny)) == Err::<(), ErrorView>(
            ErrorView::PermissionBalanceDenied,
        ),
{
}

/// Law: when both phases allow, the attempt succeeds.
pub proof fn lemma_both_allow_succeed()
    ensures
        mayi_spec(Permission::Allow, Ok(Permission::Allow)) == Ok::<(), ErrorView>(()),
{
}

/// Law: a failure of the second phase propagates verbatim as the
/// attempt's outcome.
pub proof fn lemma_balance_error_verbatim(e: ErrorView)
    ensures
        mayi_spec(Permission::Allow, Err(e)) == Err::<(), ErrorView>(e),
{
}

} // verus!
