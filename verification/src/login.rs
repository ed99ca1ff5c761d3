//! The text typed into the login form.

use vstd::prelude::*;
use crate::message::{Message, MessageView};

verus! {

/// The two input fields of the login form. An empty text is a field that
/// nothing was typed into.
#[derive(Debug, PartialEq, Eq)]
pub struct LoginField {
    pub email: String,
    pub password: String,
}

/// The login form's fields as sequences of characters.
pub struct LoginFieldView {
    pub email: Seq<char>,
    pub password: Seq<char>,
}

impl View for LoginField {
    type V = LoginFieldView;

    open spec fn view(&self) -> LoginFieldView {
        LoginFieldView { email: self.email@, password: self.password@ }
    }
}

impl LoginFieldView {
    /// The form with nothing typed into it.
    pub open spec fn blank() -> LoginFieldView {
        LoginFieldView { email: Seq::empty(), password: Seq::empty() }
    }
}

impl LoginField {
    /// The form with nothing typed into it.
    pub fn new() -> (fields: LoginField)
        ensures
            fields@ == LoginFieldView::blank(),
    {
        LoginField { email: String::new(), password: String::new() }
    }

    /// The message that the address input sends when its text changes: the
    /// new address, with the password as it stands.
    pub fn email_changed(&self, email: String) -> (message: Message)
        ensures
            message@ == MessageView::LoginFieldChange(email@, self@.password),
    {
        Message::LoginFieldChange(email, self.password.clone())
    }

    /// The message that the password input sends when its text changes: the
    /// address as it stands, with the new password.
    pub fn password_changed(&self, password: String) -> (message: Message)
        ensures
            message@ == MessageView::LoginFieldChange(self@.email, password@),
    {
        Message::LoginFieldChange(self.email.clone(), password)
    }
}

impl Clone for LoginField {
    /// A copy that holds the same texts.
    fn clone(&self) -> (copy: LoginField)
        ensures
            copy == *self,
    {
        LoginField { email: self.email.clone(), password: self.password.clone() }
    }
}

} // verus!
