//! The caller's session, and the order of authorization levels.

use vstd::prelude::*;

verus! {

/// How much a caller is allowed to do, from least to most.
#[derive(Clone, Copy, Debug, PartialEq, Eq, Structural)]
pub enum AuthLevel {
    /// Not authenticated.
    Anonymous,
    /// A record user of one scope.
    Scope,
    /// A user of one database.
    Database,
    /// A user of one namespace.
    Namespace,
    /// A user of the whole service.
    Root,
}

/// What the pipeline knows of the caller.
#[derive(Clone, Copy, Debug, PartialEq, Eq, Structural)]
pub struct Session {
    pub level: AuthLevel,
}

/// The place of a level in the order: a higher rank allows more.
pub open spec fn rank(level: AuthLevel) -> nat {
    match level {
        AuthLevel::Anonymous => 0,
        AuthLevel::Scope => 1,
        AuthLevel::Database => 2,
        AuthLevel::Namespace => 3,
        AuthLevel::Root => 4,
    }
}

/// Whether `level` allows at least what `required` allows.
pub open spec fn reaches(level: AuthLevel, required: AuthLevel) -> bool {
    rank(level) >= rank(required)
}

/// The level of a session; a caller without a session has none.
pub open spec fn level_of(session: Option<Session>) -> AuthLevel {
    match session {
        Some(s) => s.level,
        None => AuthLevel::Anonymous,
    }
}

impl AuthLevel {
    fn rank(&self) -> (r: u8)
        ensures
            r == rank(*self),
    {
        match self {
            AuthLevel::Anonymous => 0,
            AuthLevel::Scope => 1,
            AuthLevel::Database => 2,
            AuthLevel::Namespace => 3,
            AuthLevel::Root => 4,
        }
    }

    /// Whether this level allows at least what `required` allows.
    pub fn reaches(&self, required: AuthLevel) -> (yes: bool)
        ensures
            yes == reaches(*self, required),
    {
        self.rank() >= required.rank()
    }
}

} // verus!
