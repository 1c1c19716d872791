use vstd::prelude::*;

use crate::context::Context;
use crate::context::DataKind;
use crate::context::DataValue;
use crate::error::Error;
use crate::error::ErrorView;
use crate::extractor::FromContext;
use crate::AuthorizeAction;
use crate::Permission;

verus! {

/// The database endpoint a `Connection` wraps: a plain address string here,
/// standing in for a real driver handle.
pub type DBConnection = String;

/// The roles a statement can run as.
#[derive(Debug, Copy, Clone, PartialEq, Eq, Structural)]
pub enum User {
    Patient,
    PlaceUser,
    Admin,
}

/// Failure of a statement at the connection boundary.
#[derive(Debug, Copy, Clone, PartialEq, Eq, Structural)]
pub enum AuthError {
    Permission,
}

/// The verdict of a connection's authorizer on one statement.
#[derive(Debug, Copy, Clone, PartialEq, Eq, Structural)]
pub enum Auth {
    Allow,
    Deny,
}

/// What a statement does to the database, as far as authorization cares.
#[derive(Debug, Copy, Clone)]
pub enum AuthAction<'a> {
    Delete { table_name: &'a str },
    Insert { table_name: &'a str },
    Update { table_name: &'a str, column_name: &'a str },
    Read { table_name: &'a str },
}

/// A SQL statement together with the action it asks authorization for.
#[derive(Debug, Clone)]
pub struct SqlStatement<'a> {
    pub sql: String,
    pub params: Vec<&'a str>,
    pub action: AuthAction<'a>,
}

/// The static role/table rules an untrusted connection enforces: which
/// tables and columns each role may touch.
pub open spec fn authorizer_spec(user: User, action: AuthAction) -> Auth {
    match user {
        User::Admin => Auth::Allow,
        User::PlaceUser => place_user_rule(action),
        User::Patient => patient_rule(action),
    }
}

/// The tables and columns a `PlaceUser` may touch.
pub open spec fn place_user_rule(action: AuthAction) -> Auth {
    match action {
        AuthAction::Delete { table_name } => if table_name@ == "forms"@ || table_name@
            == "resources"@ {
            Auth::Allow
        } else {
            Auth::Deny
        },
        AuthAction::Insert { table_name } => if table_name@ == "forms"@ || table_name@
            == "checkins"@ || table_name@ == "action_plans"@ {
            Auth::Allow
        } else {
            Auth::Deny
        },
        AuthAction::Update { table_name, column_name } => if (table_name@ == "forms"@
            && column_name@ == "due_at"@) || (table_name@ == "action_plans"@ && (column_name@
            == "name"@ || column_name@ == "owner"@ || column_name@ == "status"@)) {
            Auth::Allow
        } else {
            Auth::Deny
        },
        AuthAction::Read { table_name } => if table_name@ == "forms"@ || table_name@
            == "checkins"@ || table_name@ == "users"@ || table_name@ == "places"@ || table_name@
            == "action_plans"@ {
            Auth::Allow
        } else {
            Auth::Deny
        },
    }
}

/// The tables and columns a `Patient` may touch.
pub open spec fn patient_rule(action: AuthAction) -> Auth {
    match action {
        AuthAction::Delete { .. } => Auth::Deny,
        AuthAction::Insert { table_name } => if table_name@ == "form_response"@ || table_name@
            == "checkins"@ {
            Auth::Allow
        } else {
            Auth::Deny
        },
        AuthAction::Update { table_name, column_name } => if table_name@ == "checkins"@
            && column_name@ == "status"@ {
            Auth::Allow
        } else {
            Auth::Deny
        },
        AuthAction::Read { table_name } => if table_name@ == "form_response"@ || table_name@
            == "forms"@ || table_name@ == "checkins"@ || table_name@ == "action_plans"@ {
            Auth::Allow
        } else {
            Auth::Deny
        },
    }
}

/// How a connection decides whether a statement may run.
#[derive(Debug, Copy, Clone, PartialEq, Eq, Structural)]
enum Authorizer {
    AllowAll,
    RoleTable,
}

/// A shim over an actual database connection; a real one would hold a
/// pooled driver handle behind `conn`.
#[derive(Debug, Clone)]
pub struct Connection {
    pub conn: DBConnection,
    authorizer: Authorizer,
}

/// What a `Connection` is mathematically: the endpoint it points at and
/// whether its authorizer waves every statement through.
pub ghost struct ConnectionView {
    pub conn: Seq<char>,
    pub trusted: bool,
}

impl View for Connection {
    type V = ConnectionView;

    closed spec fn view(&self) -> ConnectionView {
        ConnectionView { conn: self.conn@, trusted: self.authorizer == Authorizer::AllowAll }
    }
}

fn auth_of(allowed: bool) -> (verdict: Auth)
    ensures
        verdict == (if allowed {
            Auth::Allow
        } else {
            Auth::Deny
        }),
{
    if allowed {
        Auth::Allow
    } else {
        Auth::Deny
    }
}

impl Connection {
    /// A trusted connection skips the role table and allows every statement.
    pub open spec fn is_trusted(&self) -> bool {
        self@.trusted
    }

    /// The verdict this connection's authorizer gives one statement.
    pub open spec fn decision(&self, user: User, action: AuthAction) -> Auth {
        if self.is_trusted() {
            Auth::Allow
        } else {
            authorizer_spec(user, action)
        }
    }

    /// The role/table rule table, applied to one action.
    pub(crate) fn authorizer(user: User, action: AuthAction) -> (verdict: Auth)
        ensures
            verdict == authorizer_spec(user, action),
    {
        match user {
            User::Admin => Auth::Allow,
            User::PlaceUser => match action {
                AuthAction::Delete { table_name } => auth_of(
                    crate::str_eq(table_name, "forms") || crate::str_eq(table_name, "resources"),
                ),
                AuthAction::Insert { table_name } => auth_of(
                    crate::str_eq(table_name, "forms") || crate::str_eq(table_name, "checkins")
                        || crate::str_eq(table_name, "action_plans"),
                ),
                AuthAction::Update { table_name, column_name } => auth_of(
                    (crate::str_eq(table_name, "forms") && crate::str_eq(column_name, "due_at")) || (
                    crate::str_eq(table_name, "action_plans") && (crate::str_eq(column_name, "name")
                        || crate::str_eq(column_name, "owner") || crate::str_eq(
                        column_name,
                        "status",
                    ))),
                ),
                AuthAction::Read { table_name } => auth_of(
                    crate::str_eq(table_name, "forms") || crate::str_eq(table_name, "checkins")
                        || crate::str_eq(table_name, "users") || crate::str_eq(table_name, "places")
                        || crate::str_eq(table_name, "action_plans"),
                ),
            },
            User::Patient => match action {
                AuthAction::Delete { .. } => Auth::Deny,
                AuthAction::Insert { table_name } => auth_of(
                    crate::str_eq(table_name, "form_response") || crate::str_eq(
                        table_name,
                        "checkins",
                    ),
                ),
                AuthAction::Update { table_name, column_name } => auth_of(
                    crate::str_eq(table_name, "checkins") && crate::str_eq(column_name, "status"),
                ),
                AuthAction::Read { table_name } => auth_of(
                    crate::str_eq(table_name, "form_response") || crate::str_eq(
                        table_name,
                        "forms",
                    ) || crate::str_eq(table_name, "checkins") || crate::str_eq(
                        table_name,
                        "action_plans",
                    ),
                ),
            },
        }
    }

    /// A real implementation would authenticate against the database here.
    fn connect(self) -> (r: Result<Self, ()>)
        ensures
            r matches Ok(c) && c == self,
    {
        Ok(self)
    }

    /// A connection whose authorizer allows everything; for cron jobs,
    /// command-line tools and other operator-driven work.
    pub fn trusted(conn: String) -> (r: Result<Self, ()>)
        ensures
            r matches Ok(c) && c@.conn == conn@ && c.is_trusted(),
    {
        let c = Connection { conn, authorizer: Authorizer::AllowAll };
        c.connect()
    }

    /// A connection that holds every statement to the role table; for
    /// anywhere users interact.
    pub fn untrusted(conn: String) -> (r: Result<Self, ()>)
        ensures
            r matches Ok(c) && c@.conn == conn@ && !c.is_trusted(),
    {
        let c = Connection { conn, authorizer: Authorizer::RoleTable };
        c.connect()
    }

    /// This connection's verdict on one action, without consuming the
    /// connection; shared holders of one handle can ask concurrently.
    pub fn authorize(&self, user: User, action: AuthAction) -> (verdict: Auth)
        ensures
            verdict == self.decision(user, action),
    {
        match self.authorizer {
            Authorizer::AllowAll => Auth::Allow,
            Authorizer::RoleTable => Self::authorizer(user, action),
        }
    }

    /// Runs one statement if this connection's authorizer allows its action.
    pub fn exec(self, current_user: User, statement: SqlStatement) -> (r: Result<(), AuthError>)
        ensures
            r == (if self.decision(current_user, statement.action) == Auth::Allow {
                Ok::<(), AuthError>(())
            } else {
                Err::<(), AuthError>(AuthError::Permission)
            }),
    {
        let verdict = self.authorize(current_user, statement.action);
        match verdict {
            Auth::Allow => Ok(()),
            Auth::Deny => Err(AuthError::Permission),
        }
    }
}

impl FromContext for User {
    open spec fn from_context_spec(context: Context) -> Result<User, Seq<char>> {
        if context@.data.contains_key("user"@) {
            match context@.data["user"@] {
                DataValue::User(u) => Ok(u),
                _ => Err("User not found in context"@),
            }
        } else {
            Err("User not found in context"@)
        }
    }

    /// The current user, from the value stored under `"user"`.
    fn from_context(context: &Context) -> (r: Result<User, Error>) {
        match context.get("user", DataKind::User) {
            Some(v) => match v {
                DataValue::User(u) => Ok(*u),
                _ => vstd::pervasive::unreached(),
            },
            None => Err(Error::ExtractionError("User not found in context".to_string())),
        }
    }
}

impl<'a> AuthorizeAction for AuthAction<'a> {
    /// The synchronous phase: the static role/table rule, applied to the
    /// user extracted from the store. A missing or misshapen user denies.
    open spec fn check_spec(&self, context: Context) -> Permission {
        match User::from_context_spec(context) {
            Ok(u) => if authorizer_spec(u, *self) == Auth::Allow {
                Permission::Allow
            } else {
                Permission::Deny
            },
            Err(_) => Permission::Deny,
        }
    }

    /// The second phase: the verdict of the connection stored under
    /// `"db"`, or `Allow` when no such connection is configured; a
    /// missing or misshapen user fails with the extraction error.
    open spec fn balance_spec(&self, context: Context) -> Result<Permission, ErrorView> {
        match User::from_context_spec(context) {
            Ok(u) => if context@.connections.contains_key("db"@) {
                if context@.connections["db"@].decision(u, *self) == Auth::Allow {
                    Ok(Permission::Allow)
                } else {
                    Ok(Permission::Deny)
                }
            } else {
                Ok(Permission::Allow)
            },
            Err(msg) => Err(ErrorView::ExtractionError(msg)),
        }
    }

    fn check(&self, context: &Context) -> (p: Permission) {
        match User::from_context(context) {
            Ok(u) => {
                let verdict = Connection::authorizer(u, *self);
                if verdict == Auth::Allow {
                    Permission::Allow
                } else {
                    Permission::Deny
                }
            },
            Err(_) => Permission::Deny,
        }
    }

    fn balance(&self, context: &Context) -> (r: Result<Permission, Error>) {
        let user = match User::from_context(context) {
            Ok(u) => u,
            Err(e) => {
                return Err(e);
            },
        };
        match context.get_connection("db") {
            Some(conn) => {
                let verdict = conn.authorize(user, *self);
                if verdict == Auth::Allow {
                    Ok(Permission::Allow)
                } else {
                    Ok(Permission::Deny)
                }
            },
            None => Ok(Permission::Allow),
        }
    }
}

} // verus!
