//! A project route as the completion layer sees it: an optional name and
//! the HTTP method, with a one-line description for display.

use vstd::prelude::*;

use vstd::string::StringExecFns;

verus! {

/// One route of the project.
#[derive(Clone)]
pub struct Route {
    pub name: Option<String>,
    pub method: String,
}

/// The mathematical value of a `Route`.
pub struct RouteV {
    pub name: Option<Seq<char>>,
    pub method: Seq<char>,
}

impl View for Route {
    type V = RouteV;

    open spec fn view(&self) -> RouteV {
        RouteV {
            name: match self.name {
                Some(s) => Some(s@),
                None => None,
            },
            method: self.method@,
        }
    }
}

/// The values of a route list.
pub open spec fn route_views(rs: Seq<Route>) -> Seq<RouteV> {
    rs.map_values(|r: Route| r@)
}

/// The description a route candidate displays.
pub open spec fn route_desc_spec(method: Seq<char>) -> Seq<char> {
    "Method: "@ + method
}

impl Route {
    /// The one-line description of the route: its HTTP method.
    pub fn route_description(&self) -> (r: String)
        ensures
            r@ == route_desc_spec(self@.method),
    {
        let mut d = String::from_str("Method: ");
        d.append(self.method.as_str());
        d
    }
}

} // verus!
