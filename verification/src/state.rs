//! The state of the window and the rule by which messages change it.

use vstd::prelude::*;
use crate::login::{LoginField, LoginFieldView};
use crate::message::{Message, MessageView};
use crate::page::Page;
use crate::theme::Theme;

verus! {

/// Everything the window remembers: its theme, the page on show and the
/// login form's text. The event loop owns the one value there is and changes
/// it through [`RustUI::update`] alone.
#[derive(Debug, PartialEq, Eq)]
pub struct RustUI {
    pub theme: Theme,
    pub page: Page,
    pub login_field: LoginField,
}

/// The state with its texts as sequences of characters.
pub struct RustUIView {
    pub theme: Theme,
    pub page: Page,
    pub login_field: LoginFieldView,
}

impl View for RustUI {
    type V = RustUIView;

    open spec fn view(&self) -> RustUIView {
        RustUIView { theme: self.theme, page: self.page, login_field: self.login_field@ }
    }
}

impl RustUIView {
    /// The state that the window starts in: dark, on the login page, with
    /// nothing typed.
    pub open spec fn initial() -> RustUIView {
        RustUIView {
            theme: Theme::Dark,
            page: Page::Login,
            login_field: LoginFieldView::blank(),
        }
    }

    /// The state after one message.
    ///
    /// * `ToggleTheme` flips the theme.
    /// * `LoginFieldChange` replaces both texts of the form.
    /// * `LoginSubmit` changes nothing.
    /// * `Router` shows the page that the route names, and changes nothing
    ///   where the route names none.
    pub open spec fn step(self, message: MessageView) -> RustUIView {
        match message {
            MessageView::ToggleTheme => RustUIView { theme: self.theme.toggled(), ..self },
            MessageView::LoginFieldChange(email, password) => RustUIView {
                login_field: LoginFieldView { email, password },
                ..self
            },
            MessageView::LoginSubmit => self,
            MessageView::Router(route) => match Page::named(route) {
                Some(page) => RustUIView { page, ..self },
                None => self,
            },
        }
    }
}

/// What the window shows for one state: which page is laid out, and what the
/// two controls of the footer send when pressed.
#[derive(Debug, PartialEq, Eq)]
pub struct Screen {
    /// The page whose layout is drawn.
    pub page: Page,
    /// What the footer's theme control sends.
    pub toggle: Message,
    /// What the footer's link to the other page sends.
    pub navigate: Message,
}

impl RustUI {
    /// The state that the window starts in: dark, on the login page, with
    /// nothing typed.
    pub fn new() -> (state: RustUI)
        ensures
            state@ == RustUIView::initial(),
    {
        RustUI { theme: Theme::Dark, page: Page::Login, login_field: LoginField::new() }
    }

    /// The title of the window.
    pub fn title(&self) -> (title: String)
        ensures
            title@ == "Rust UI - Iced"@,
    {
        "Rust UI - Iced".to_owned()
    }

    /// The theme in which the window is drawn.
    pub fn theme(&self) -> (theme: Theme)
        ensures
            theme == self@.theme,
    {
        self.theme
    }

    /// Takes one message in. The state afterwards is `step` of the state
    /// before; every message is accepted, and none fails.
    ///
    /// `LoginSubmit`, and a `Router` whose route names no page, leave the
    /// state exactly as it was.
    pub fn update(&mut self, message: Message)
        ensures
            final(self)@ == old(self)@.step(message@),
            message@ is ToggleTheme ==> final(self).theme == old(self).theme.toggled(),
            message@ matches MessageView::LoginFieldChange(email, password) ==> final(self)@.login_field
                == (LoginFieldView { email, password }),
            message@ is LoginSubmit ==> *final(self) == *old(self),
            message@ matches MessageView::Router(route) ==> (match Page::named(route) {
                Some(page) => final(self).page == page,
                None => *final(self) == *old(self),
            }),
    {
        match message {
            Message::ToggleTheme => {
                self.theme = self.theme.toggle();
            },
            Message::LoginFieldChange(email, password) => {
                self.login_field.email = email;
                self.login_field.password = password;
            },
            Message::LoginSubmit => {},
            Message::Router(route) => {
                match Page::from_route(route.as_str()) {
                    Some(page) => {
                        self.page = page;
                    },
                    None => {},
                }
            },
        }
    }

    /// What the window shows for this state. The page laid out is the current
    /// page and depends on nothing else; the footer's theme control sends
    /// `ToggleTheme`, and its link sends a `Router` with the name of the page
    /// that is not on show.
    pub fn render(&self) -> (screen: Screen)
        ensures
            screen.page == self@.page,
            screen.toggle@ == MessageView::ToggleTheme,
            screen.navigate@ == MessageView::Router(self@.page.opposite().route_name()),
    {
        Screen {
            page: self.page,
            toggle: Message::ToggleTheme,
            navigate: Message::Router(self.page.other().route()),
        }
    }
}

impl Clone for RustUI {
    /// A copy in the same state.
    fn clone(&self) -> (copy: RustUI)
        ensures
            copy == *self,
    {
        RustUI { theme: self.theme, page: self.page, login_field: self.login_field.clone() }
    }
}

impl Clone for Screen {
    /// A copy that shows the same.
    fn clone(&self) -> (copy: Screen)
        ensures
            copy == *self,
    {
        Screen { page: self.page, toggle: self.toggle.clone(), navigate: self.navigate.clone() }
    }
}

} // verus!
