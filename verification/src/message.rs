//! The messages that the window sends to its state.

use vstd::prelude::*;

verus! {

/// Something that happened in the window.
#[derive(Debug, PartialEq, Eq)]
pub enum Message {
    /// The theme control was pressed.
    ToggleTheme,
    /// The login form was sent off. The state does not react to it: the
    /// message is kept as the place where a sign-in would start.
    LoginSubmit,
    /// A page was asked for by name.
    Router(String),
    /// The login form was edited: the address and the password as they now
    /// read.
    LoginFieldChange(String, String),
}

/// A message with its texts as sequences of characters.
pub enum MessageView {
    ToggleTheme,
    LoginSubmit,
    Router(Seq<char>),
    LoginFieldChange(Seq<char>, Seq<char>),
}

impl View for Message {
    type V = MessageView;

    open spec fn view(&self) -> MessageView {
        match self {
            Message::ToggleTheme => MessageView::ToggleTheme,
            Message::LoginSubmit => MessageView::LoginSubmit,
            Message::Router(route) => MessageView::Router(route@),
            Message::LoginFieldChange(email, password) => MessageView::LoginFieldChange(
                email@,
                password@,
            ),
        }
    }
}

impl Clone for Message {
    /// A copy that carries the same texts.
    fn clone(&self) -> (copy: Message)
        ensures
            copy == *self,
    {
        match self {
            Message::ToggleTheme => Message::ToggleTheme,
            Message::LoginSubmit => Message::LoginSubmit,
            Message::Router(route) => Message::Router(route.clone()),
            Message::LoginFieldChange(email, password) => Message::LoginFieldChange(
                email.clone(),
                password.clone(),
            ),
        }
    }
}

} // verus!
