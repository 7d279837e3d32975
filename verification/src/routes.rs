use vstd::prelude::*;

use crate::text::str_eq;

verus! {

/// The recognized routes. Every path maps to exactly one of them.
#[derive(Clone, Copy, Debug, PartialEq, Eq)]
pub enum Route {
    Home,
    About,
    NotFound,
}

/// Routing is an exact match on the path alone: no prefix matching,
/// no case folding, no handling of trailing slashes. Method, headers
/// and body play no part.
pub open spec fn route_of(path: Seq<char>) -> Route {
    if path == "/"@ {
        Route::Home
    } else if path == "/about"@ {
        Route::About
    } else {
        Route::NotFound
    }
}

/// Maps a request path to its handler's route: a total function,
/// every unrecognized path lands on `Route::NotFound`.
pub fn dispatch(path: &str) -> (r: Route)
    ensures
        r == route_of(path@),
{
    if str_eq(path, "/") {
        Route::Home
    } else if str_eq(path, "/about") {
        Route::About
    } else {
        Route::NotFound
    }
}

} // verus!
