//! The two routes: what each accepts, what it requires, and what it offers.

use vstd::prelude::*;
use crate::codec::{Accept, Codec};
use crate::error::Error;
use crate::session::{reaches, level_of, AuthLevel, Session};

verus! {

/// Largest body accepted for a bulk import: 4 GiB.
pub const IMPORT_MAX: u64 = 4294967296;

/// Largest body accepted for a sign-in: 1 KiB.
pub const SIGNIN_MAX: u64 = 1024;

/// A route of the service.
#[derive(Clone, Copy, Debug, PartialEq, Eq, Structural)]
pub enum Route {
    /// Runs the command text of the body against the datastore.
    Import,
    /// Checks the credentials of the body and opens a session.
    Signin,
}

/// The longest body that a route takes, in bytes.
pub open spec fn max_body(route: Route) -> u64 {
    match route {
        Route::Import => IMPORT_MAX,
        Route::Signin => SIGNIN_MAX,
    }
}

/// The level that a caller must have reached before a route serves it.
pub open spec fn required_level(route: Route) -> AuthLevel {
    match route {
        Route::Import => AuthLevel::Database,
        Route::Signin => AuthLevel::Anonymous,
    }
}

/// Whether `route` lets `session` in. A missing session counts
/// as an anonymous one, so a route that requires a level turns it away.
pub open spec fn permits(route: Route, session: Option<Session>) -> bool {
    reaches(level_of(session), required_level(route))
}

/// The codec with which a route answers a declared format, if it offers it.
pub open spec fn offered(route: Route, accept: Accept) -> Option<Codec> {
    match (route, accept) {
        (_, Accept::Json) => Some(Codec::Json),
        (_, Accept::BinaryCompact) => Some(Codec::BinaryCompact),
        (_, Accept::BinaryPack) => Some(Codec::BinaryPack),
        (_, Accept::Internal) => Some(Codec::Internal),
        (Route::Import, Accept::OctetStream) => Some(Codec::NoBody),
        (Route::Signin, Accept::Text) => Some(Codec::Text),
        (Route::Signin, Accept::NoBody) => Some(Codec::NoBody),
        (Route::Import, Accept::Text) => None,
        (Route::Import, Accept::NoBody) => None,
        (Route::Signin, Accept::OctetStream) => None,
    }
}

/// The codec of a route for a caller who declares no format. An import has
/// none; a sign-in answers without a body.
pub open spec fn default_codec(route: Route) -> Option<Codec> {
    match route {
        Route::Import => None,
        Route::Signin => Some(Codec::NoBody),
    }
}

/// The one codec that a request resolves to, if it resolves.
pub open spec fn negotiated(route: Route, accept: Option<Accept>) -> Option<Codec> {
    match accept {
        Some(a) => offered(route, a),
        None => default_codec(route),
    }
}

impl Route {
    /// The path under which the route is served.
    pub fn path(&self) -> (p: &'static str)
        ensures
            p@ == match *self {
                Route::Import => "/import"@,
                Route::Signin => "/signin"@,
            },
    {
        match self {
            Route::Import => "/import",
            Route::Signin => "/signin",
        }
    }

    /// The longest body that the route takes, in bytes.
    pub fn max_body(&self) -> (max: u64)
        ensures
            max == max_body(*self),
    {
        match self {
            Route::Import => IMPORT_MAX,
            Route::Signin => SIGNIN_MAX,
        }
    }

    /// Whether the route also answers a preflight, with no work done.
    pub fn preflight(&self) -> (yes: bool)
        ensures
            yes == (*self == Route::Signin),
    {
        match self {
            Route::Import => false,
            Route::Signin => true,
        }
    }

    /// The level that a caller must have reached.
    pub fn required_level(&self) -> (level: AuthLevel)
        ensures
            level == required_level(*self),
    {
        match self {
            Route::Import => AuthLevel::Database,
            Route::Signin => AuthLevel::Anonymous,
        }
    }

    /// The authorization step: whether `session` may enter the route.
    pub fn permits(&self, session: Option<Session>) -> (pass: bool)
        ensures
            pass == permits(*self, session),
    {
        let level = match session {
            Some(s) => s.level,
            None => AuthLevel::Anonymous,
        };
        level.reaches(self.required_level())
    }

    /// Content negotiation: resolves the caller's preference to one codec,
    /// or refuses it.
    pub fn negotiate(&self, accept: Option<Accept>) -> (r: Result<Codec, Error>)
        ensures
            match r {
                Ok(codec) => negotiated(*self, accept) == Some(codec),
                Err(e) => negotiated(*self, accept) is None && e is UnsupportedMediaType,
            },
    {
        let found = match accept {
            None => match self {
                Route::Import => None,
                Route::Signin => Some(Codec::NoBody),
            },
            Some(Accept::Json) => Some(Codec::Json),
            Some(Accept::BinaryCompact) => Some(Codec::BinaryCompact),
            Some(Accept::BinaryPack) => Some(Codec::BinaryPack),
            Some(Accept::Internal) => Some(Codec::Internal),
            Some(Accept::OctetStream) => match self {
                Route::Import => Some(Codec::NoBody),
                Route::Signin => None,
            },
            Some(Accept::Text) => match self {
                Route::Import => None,
                Route::Signin => Some(Codec::Text),
            },
            Some(Accept::NoBody) => match self {
                Route::Import => None,
                Route::Signin => Some(Codec::NoBody),
            },
        };
        match found {
            Some(codec) => Ok(codec),
            None => Err(Error::UnsupportedMediaType),
        }
    }
}

} // verus!
