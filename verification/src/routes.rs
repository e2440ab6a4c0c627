//! The application's route table: four routes, the path each is mounted at,
//! and the resolution of a path back to a route.

use vstd::prelude::*;
use vstd::string::{StrSliceExecFns, StringExecFns};

verus! {

/// One variant for each page the navigation can reach, and a catch-all
/// for paths that match none of them.
#[derive(Clone, Copy, Debug, PartialEq, Eq, Structural)]
pub enum MainRoute {
    Home,
    About,
    Contact,
    NotFound,
}

/// The path that each route is mounted at.
pub open spec fn path_of(route: MainRoute) -> Seq<char> {
    match route {
        MainRoute::Home => "/"@,
        MainRoute::About => "/about"@,
        MainRoute::Contact => "/contact"@,
        MainRoute::NotFound => "/404"@,
    }
}

/// The route that a path resolves to; a path that is mounted nowhere
/// falls through to `NotFound`.
pub open spec fn route_of(path: Seq<char>) -> MainRoute {
    if path == "/"@ {
        MainRoute::Home
    } else if path == "/about"@ {
        MainRoute::About
    } else if path == "/contact"@ {
        MainRoute::Contact
    } else {
        MainRoute::NotFound
    }
}

/// Character-for-character equality of two string slices.
pub fn str_eq(a: &str, b: &str) -> (r: bool)
    ensures
        r == (a@ == b@),
{
    let a_len = a.unicode_len();
    let b_len = b.unicode_len();
    if a_len != b_len {
        return false;
    }
    let mut i: usize = 0;
    while i < a_len
        invariant
            i <= a_len,
            a_len == a@.len(),
            a_len == b@.len(),
            forall|j: int| 0 <= j < i ==> a@[j] == b@[j],
        decreases a_len - i,
    {
        if a.get_char(i) != b.get_char(i) {
            return false;
        }
        i += 1;
    }
    proof {
        assert(a@ =~= b@);
    }
    true
}

impl MainRoute {
    /// The path this route is mounted at.
    pub fn to_path(&self) -> (r: String)
        ensures
            r@ == path_of(*self),
    {
        match self {
            MainRoute::Home => String::from_str("/"),
            MainRoute::About => String::from_str("/about"),
            MainRoute::Contact => String::from_str("/contact"),
            MainRoute::NotFound => String::from_str("/404"),
        }
    }

    /// Resolve a path to the route mounted there.
    pub fn recognize(path: &str) -> (r: MainRoute)
        ensures
            r == route_of(path@),
    {
        if str_eq(path, "/") {
            MainRoute::Home
        } else if str_eq(path, "/about") {
            MainRoute::About
        } else if str_eq(path, "/contact") {
            MainRoute::Contact
        } else {
            MainRoute::NotFound
        }
    }
}

/// Resolving the path a route is mounted at yields that route back:
/// the four mount points are pairwise distinct, so no route shadows another.
pub proof fn lemma_route_round_trip(route: MainRoute)
    ensures
        route_of(path_of(route)) == route,
{
    reveal_strlit("/");
    reveal_strlit("/about");
    reveal_strlit("/contact");
    reveal_strlit("/404");
    assert("/"@.len() == 1);
    assert("/about"@.len() == 6);
    assert("/contact"@.len() == 8);
    assert("/404"@.len() == 4);
}

} // verus!
