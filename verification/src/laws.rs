//! What holds of the state under every message, whatever state it is in.

use vstd::prelude::*;
use crate::login::LoginFieldView;
use crate::message::MessageView;
use crate::page::{lemma_route_round_trip, Page};
use crate::state::RustUIView;

verus! {

/// Toggling the theme twice gives back the state that was there before: the
/// theme returns to what it was, and nothing else has moved.
pub proof fn lemma_toggle_twice_restores(state: RustUIView)
    ensures
        state.step(MessageView::ToggleTheme).step(MessageView::ToggleTheme) == state,
        state.step(MessageView::ToggleTheme).step(MessageView::ToggleTheme).theme == state.theme,
        state.step(MessageView::ToggleTheme).theme != state.theme,
{
}

/// An edit of the login form overwrites both of its texts with those that the
/// message carries, whatever the form held before, and touches nothing else.
pub proof fn lemma_edit_overwrites_form(state: RustUIView, email: Seq<char>, password: Seq<char>)
    ensures
        state.step(MessageView::LoginFieldChange(email, password)).login_field == (LoginFieldView {
            email,
            password,
        }),
        state.step(MessageView::LoginFieldChange(email, password)).theme == state.theme,
        state.step(MessageView::LoginFieldChange(email, password)).page == state.page,
{
}

/// Sending the login form off changes nothing, whatever the form holds.
pub proof fn lemma_submit_changes_nothing(state: RustUIView)
    ensures
        state.step(MessageView::LoginSubmit) == state,
{
}

/// Asking for a page by its name shows that page, from whichever page the
/// request is made, and touches nothing else.
pub proof fn lemma_route_shows_its_page(state: RustUIView, page: Page)
    ensures
        state.step(MessageView::Router(page.route_name())).page == page,
        state.step(MessageView::Router(page.route_name())).theme == state.theme,
        state.step(MessageView::Router(page.route_name())).login_field == state.login_field,
{
    lemma_route_round_trip(page);
}

/// The footer's link, which asks for the page that is not on show, always
/// leaves the current page; followed twice, it comes back to it.
pub proof fn lemma_link_alternates_pages(state: RustUIView)
    ensures
        state.step(MessageView::Router(state.page.opposite().route_name())).page
            == state.page.opposite(),
        state.step(MessageView::Router(state.page.opposite().route_name())).step(
            MessageView::Router(state.page.route_name()),
        ) == state,
{
    lemma_route_round_trip(state.page);
    lemma_route_round_trip(state.page.opposite());
}

/// A route that names no page is ignored: the state stays as it was, on the
/// page that was on show.
pub proof fn lemma_unknown_route_is_ignored(state: RustUIView, route: Seq<char>)
    requires
        Page::named(route) is None,
    ensures
        state.step(MessageView::Router(route)) == state,
{
}

/// Each part of the state answers to one kind of message only: the theme to
/// `ToggleTheme`, the page to `Router`, the form to `LoginFieldChange`. So
/// what was typed stays when the theme or the page changes.
pub proof fn lemma_each_part_has_one_message(state: RustUIView, message: MessageView)
    ensures
        !(message is ToggleTheme) ==> state.step(message).theme == state.theme,
        !(message is Router) ==> state.step(message).page == state.page,
        !(message is LoginFieldChange) ==> state.step(message).login_field == state.login_field,
{
}

} // verus!
