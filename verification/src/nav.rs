//! The navigation bar: the class string of one item and the fixed list of
//! items the bar shows.

use vstd::prelude::*;
use vstd::string::StringExecFns;
use crate::routes::MainRoute;

verus! {

/// Properties of one navigation item: its label, the route it links to,
/// and whether it is highlighted as the active one.
#[derive(Clone, Debug, PartialEq)]
pub struct Props {
    pub title: String,
    pub route: MainRoute,
    pub active: bool,
}

/// The class attribute of a navigation item: the `active` marker is
/// appended only on the highlighted item, a bare trailing space otherwise.
pub open spec fn nav_item_class_spec(active: bool) -> Seq<char> {
    if active {
        "nav-item active"@
    } else {
        "nav-item "@
    }
}

/// The class string a navigation item is rendered with.
pub fn nav_item_class(active: bool) -> (r: String)
    ensures
        r@ == nav_item_class_spec(active),
{
    if active {
        String::from_str("nav-item active")
    } else {
        String::from_str("nav-item ")
    }
}

/// The three items the navigation bar shows, in order: Home (highlighted),
/// About, and Contact.
pub fn nav_items() -> (items: Vec<Props>)
    ensures
        items@.len() == 3,
        items@[0].title@ == "Home"@,
        items@[0].route == MainRoute::Home,
        items@[0].active,
        items@[1].title@ == "About"@,
        items@[1].route == MainRoute::About,
        !items@[1].active,
        items@[2].title@ == "Contact"@,
        items@[2].route == MainRoute::Contact,
        !items@[2].active,
{
    let mut items: Vec<Props> = Vec::new();
    items.push(Props { title: String::from_str("Home"), route: MainRoute::Home, active: true });
    items.push(Props { title: String::from_str("About"), route: MainRoute::About, active: false });
    items.push(
        Props { title: String::from_str("Contact"), route: MainRoute::Contact, active: false },
    );
    items
}

} // verus!
