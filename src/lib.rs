use vstd::prelude::*;

pub mod fetch;
pub mod page;
pub mod route;

pub use route::AppRoute;
use route::{item_param, item_path, match_route, route_path};

verus! {

/// A change of location.
#[derive(Debug, Clone, PartialEq, Eq)]
pub enum Msg {
    /// The location changed outside the application.
    RouteChanged(String),
    /// The application moves to a route of its own.
    ChangeRoute(AppRoute),
}

/// The application shell: the current location, which selects the page.
#[derive(Debug, Clone, PartialEq, Eq)]
pub struct Model {
    pub route: String,
}

impl Model {
    /// Starts at `route`.
    pub fn create(route: String) -> (r: Model)
        ensures
            r.route@ == route@,
    {
        Model { route }
    }

    /// Follows a change of location; the page is always drawn again.
    pub fn update(&mut self, msg: Msg) -> (r: bool)
        ensures
            r,
            match msg {
                Msg::RouteChanged(path) => final(self).route@ == path@,
                Msg::ChangeRoute(target) => final(self).route@ == item_path(target.param()),
            },
    {
        match msg {
            Msg::RouteChanged(path) => {
                self.route = path;
            },
            Msg::ChangeRoute(target) => {
                self.route = route_path(&target);
            },
        }
        true
    }

    /// The page that the current location selects; none where no route matches.
    pub fn view(&self) -> (r: Option<AppRoute>)
        ensures
            r is Some <==> item_param(self.route@) is Some,
            r is Some ==> item_param(self.route@) == Some(r->Some_0.param()),
    {
        match_route(self.route.as_str())
    }
}

} // verus!
