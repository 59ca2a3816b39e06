//! The errors that planning and execution report.

use vstd::prelude::*;

verus! {

/// An error of the database layer.
#[derive(Clone, Debug, PartialEq, Eq)]
pub enum DatabaseError {
    /// A precondition query did not return exactly one row.
    Precheck(String),
    /// The script could not be run as a transaction.
    Transaction(String),
    /// The server or the driver reported an error; `sqlstate` is the server's
    /// code where it gave one, `context` says what was being done.
    Delegate { sqlstate: Option<String>, context: String },
}

/// The view of a [`DatabaseError`].
pub enum DatabaseErrorView {
    Precheck(Seq<char>),
    Transaction(Seq<char>),
    Delegate { sqlstate: Option<Seq<char>>, context: Seq<char> },
}

impl View for DatabaseError {
    type V = DatabaseErrorView;

    open spec fn view(&self) -> DatabaseErrorView {
        match self {
            DatabaseError::Precheck(m) => DatabaseErrorView::Precheck(m@),
            DatabaseError::Transaction(m) => DatabaseErrorView::Transaction(m@),
            DatabaseError::Delegate { sqlstate, context } => DatabaseErrorView::Delegate {
                sqlstate: match sqlstate {
                    Some(s) => Some(s@),
                    None => None,
                },
                context: context@,
            },
        }
    }
}

/// An error of resolving an operation against the database.
#[derive(Clone, Debug, PartialEq, Eq)]
pub enum PostgresExecutionError {
    /// The caller may not do this.
    Authorization,
    /// An argument is not acceptable: its name, then why.
    Validation(String, String),
    /// An internal inconsistency.
    Generic(String),
    /// More than one row came back where one was expected.
    NonUniqueResult(usize),
    /// The database layer failed.
    Postgres(DatabaseError),
}

/// The view of a [`PostgresExecutionError`].
pub enum ExecutionErrorView {
    Authorization,
    Validation(Seq<char>, Seq<char>),
    Generic(Seq<char>),
    NonUniqueResult(usize),
    Postgres(DatabaseErrorView),
}

impl View for PostgresExecutionError {
    type V = ExecutionErrorView;

    open spec fn view(&self) -> ExecutionErrorView {
        match self {
            PostgresExecutionError::Authorization => ExecutionErrorView::Authorization,
            PostgresExecutionError::Validation(name, why) => ExecutionErrorView::Validation(
                name@,
                why@,
            ),
            PostgresExecutionError::Generic(m) => ExecutionErrorView::Generic(m@),
            PostgresExecutionError::NonUniqueResult(n) => ExecutionErrorView::NonUniqueResult(*n),
            PostgresExecutionError::Postgres(e) => ExecutionErrorView::Postgres(e@),
        }
    }
}

impl DatabaseError {
    /// A copy of this error.
    pub fn duplicate(&self) -> (r: DatabaseError)
        ensures
            r@ == self@,
    {
        match self {
            DatabaseError::Precheck(m) => DatabaseError::Precheck(m.clone()),
            DatabaseError::Transaction(m) => DatabaseError::Transaction(m.clone()),
            DatabaseError::Delegate { sqlstate, context } => DatabaseError::Delegate {
                sqlstate: match sqlstate {
                    Some(s) => Some(s.clone()),
                    None => None,
                },
                context: context.clone(),
            },
        }
    }
}

impl PostgresExecutionError {
    /// The validation error about the argument `name`.
    pub fn validation(name: &str, why: &str) -> (r: PostgresExecutionError)
        ensures
            r@ == ExecutionErrorView::Validation(name@, why@),
    {
        PostgresExecutionError::Validation(name.to_owned(), why.to_owned())
    }

    /// The internal error with the given message.
    pub fn generic(message: &str) -> (r: PostgresExecutionError)
        ensures
            r@ == ExecutionErrorView::Generic(message@),
    {
        PostgresExecutionError::Generic(message.to_owned())
    }

    /// The error that a failure of the database layer surfaces as: a failed
    /// precondition is a refusal, anything else is passed on.
    pub fn from_database(error: DatabaseError) -> (r: PostgresExecutionError)
        ensures
            r@ == surfaced(error@),
    {
        match error {
            DatabaseError::Precheck(_) => PostgresExecutionError::Authorization,
            other => PostgresExecutionError::Postgres(other),
        }
    }
}

/// What a failure of the database layer surfaces as.
pub open spec fn surfaced(error: DatabaseErrorView) -> ExecutionErrorView {
    match error {
        DatabaseErrorView::Precheck(_) => ExecutionErrorView::Authorization,
        other => ExecutionErrorView::Postgres(other),
    }
}

} // verus!
