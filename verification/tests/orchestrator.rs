use std::cell::Cell;

use mayi::mayi;
use mayi::permissions::AuthAction;
use mayi::permissions::Connection;
use mayi::permissions::User;
use mayi::settle_balance;
use mayi::AuthorizeAction;
use mayi::Context;
use mayi::DataValue;
use mayi::Error;
use mayi::Permission;

enum BalanceScript {
    Allow,
    Deny,
    Fail(&'static str),
}

/// A rule with scripted outcomes that counts how often its second phase
/// runs.
struct ScriptedAction {
    check_allows: bool,
    balance: BalanceScript,
    balance_calls: Cell<u32>,
}

impl ScriptedAction {
    fn new(check_allows: bool, balance: BalanceScript) -> Self {
        ScriptedAction { check_allows, balance, balance_calls: Cell::new(0) }
    }
}

impl AuthorizeAction for ScriptedAction {
    // The two specification members are ghost: they are erased before
    // anything runs, so unverified test code stubs them out.
    fn check_spec(&self, _context: Context) -> Permission {
        panic!("ghost member; never run")
    }

    fn balance_spec(&self, _context: Context) -> Result<Permission, mayi::ErrorView> {
        panic!("ghost member; never run")
    }

    fn check(&self, _context: &Context) -> Permission {
        if self.check_allows {
            Permission::Allow
        } else {
            Permission::Deny
        }
    }

    fn balance(&self, _context: &Context) -> Result<Permission, Error> {
        self.balance_calls.set(self.balance_calls.get() + 1);
        match &self.balance {
            BalanceScript::Allow => Ok(Permission::Allow),
            BalanceScript::Deny => Ok(Permission::Deny),
            BalanceScript::Fail(msg) => Err(Error::ExtractionError(msg.to_string())),
        }
    }
}

#[test]
fn check_denied_short_circuits() {
    let ctx = Context::new();
    let action = ScriptedAction::new(false, BalanceScript::Allow);
    assert!(matches!(mayi(&ctx, &action), Err(Error::PermissionCheckDenied)));
    assert_eq!(action.balance_calls.get(), 0);
}

#[test]
fn balance_denied_after_check_allowed() {
    let ctx = Context::new();
    let action = ScriptedAction::new(true, BalanceScript::Deny);
    assert!(matches!(mayi(&ctx, &action), Err(Error::PermissionBalanceDenied)));
    assert_eq!(action.balance_calls.get(), 1);
}

#[test]
fn both_phases_allow_succeeds() {
    let ctx = Context::new();
    let action = ScriptedAction::new(true, BalanceScript::Allow);
    assert!(matches!(mayi(&ctx, &action), Ok(())));
    assert_eq!(action.balance_calls.get(), 1);
}

#[test]
fn balance_failure_propagates_verbatim() {
    let ctx = Context::new();
    let action = ScriptedAction::new(true, BalanceScript::Fail("boom"));
    match mayi(&ctx, &action) {
        Err(Error::ExtractionError(msg)) => assert_eq!(msg, "boom"),
        _ => panic!("expected the second phase's failure unchanged"),
    }
}

#[test]
fn settle_balance_maps_outcomes() {
    assert!(matches!(settle_balance(Ok(Permission::Allow)), Ok(())));
    assert!(matches!(
        settle_balance(Ok(Permission::Deny)),
        Err(Error::PermissionBalanceDenied)
    ));
    assert!(matches!(
        settle_balance(Err(Error::PermissionBalanceNonOwner)),
        Err(Error::PermissionBalanceNonOwner)
    ));
}

#[test]
fn end_to_end_place_user_reads_places() {
    let mut ctx = Context::new();
    ctx.insert("user", DataValue::User(User::PlaceUser));
    let action = AuthAction::Read { table_name: "places" };
    assert!(matches!(mayi(&ctx, &action), Ok(())));
}

#[test]
fn end_to_end_unknown_table_is_check_denied() {
    let mut ctx = Context::new();
    ctx.insert("user", DataValue::User(User::PlaceUser));
    let action = AuthAction::Read { table_name: "private_table" };
    assert!(matches!(mayi(&ctx, &action), Err(Error::PermissionCheckDenied)));
}

#[test]
fn end_to_end_with_database_connection() {
    let mut ctx = Context::new();
    ctx.insert("user", DataValue::User(User::PlaceUser));
    ctx.add_connection("db", Connection::untrusted("localhost".to_string()).unwrap());
    let action = AuthAction::Read { table_name: "places" };
    assert!(matches!(mayi(&ctx, &action), Ok(())));
}

#[test]
fn end_to_end_missing_user_is_check_denied() {
    let ctx = Context::new();
    let action = AuthAction::Read { table_name: "places" };
    assert!(matches!(mayi(&ctx, &action), Err(Error::PermissionCheckDenied)));
}

#[test]
fn balance_alone_reports_missing_user() {
    let ctx = Context::new();
    let action = AuthAction::Read { table_name: "places" };
    match action.balance(&ctx) {
        Err(Error::ExtractionError(msg)) => assert_eq!(msg, "User not found in context"),
        _ => panic!("expected an extraction error"),
    }
}
