//! The pages of the window and the names by which messages ask for them.

use vstd::prelude::*;
use crate::text::same_text;

verus! {

/// One of the two pages. Exactly one is on show at any time.
#[derive(Debug, Clone, Copy, PartialEq, Eq, Structural)]
pub enum Page {
    Login,
    Register,
}

impl Page {
    /// The name by which a message asks for this page.
    pub open spec fn route_name(self) -> Seq<char> {
        match self {
            Page::Login => "Login"@,
            Page::Register => "Register"@,
        }
    }

    /// The page that a route names, if it names one. Names are matched
    /// exactly: case and surrounding blanks count.
    pub open spec fn named(route: Seq<char>) -> Option<Page> {
        if route == Page::Login.route_name() {
            Some(Page::Login)
        } else if route == Page::Register.route_name() {
            Some(Page::Register)
        } else {
            None
        }
    }

    /// The page that is not this one.
    pub open spec fn opposite(self) -> Page {
        match self {
            Page::Login => Page::Register,
            Page::Register => Page::Login,
        }
    }

    /// The name by which a message asks for this page.
    pub fn route(self) -> (name: String)
        ensures
            name@ == self.route_name(),
    {
        match self {
            Page::Login => "Login".to_owned(),
            Page::Register => "Register".to_owned(),
        }
    }

    /// Looks a page up by its name. Gives `None` for every text that is not
    /// exactly the name of a page.
    pub fn from_route(route: &str) -> (found: Option<Page>)
        ensures
            found == Page::named(route@),
    {
        if same_text(route, "Login") {
            Some(Page::Login)
        } else if same_text(route, "Register") {
            Some(Page::Register)
        } else {
            None
        }
    }

    /// The page that is not this one: the page that the footer's link leads
    /// to.
    pub fn other(self) -> (page: Page)
        ensures
            page == self.opposite(),
            page != self,
    {
        match self {
            Page::Login => Page::Register,
            Page::Register => Page::Login,
        }
    }
}

/// The two pages have different names, so a name never stands for both.
pub proof fn lemma_route_names_differ()
    ensures
        Page::Login.route_name() != Page::Register.route_name(),
{
    reveal_strlit("Login");
    reveal_strlit("Register");
    assert("Login"@.len() == 5);
    assert("Register"@.len() == 8);
}

/// Every page is found again under its own name.
pub proof fn lemma_route_round_trip(page: Page)
    ensures
        Page::named(page.route_name()) == Some(page),
{
    lemma_route_names_differ();
}

/// A name that finds a page is that page's name.
pub proof fn lemma_named_is_route_name(route: Seq<char>)
    ensures
        Page::named(route) matches Some(page) ==> page.route_name() == route,
{
}

} // verus!
