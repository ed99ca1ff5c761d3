use rust_ui::login::LoginField;
use rust_ui::message::Message;
use rust_ui::page::Page;
use rust_ui::state::RustUI;
use rust_ui::theme::Theme;

fn state(theme: Theme, page: Page, email: &str, password: &str) -> RustUI {
    RustUI {
        theme,
        page,
        login_field: LoginField { email: email.to_string(), password: password.to_string() },
    }
}

fn every_state() -> Vec<RustUI> {
    let mut all = Vec::new();
    for theme in [Theme::Light, Theme::Dark] {
        for page in [Page::Login, Page::Register] {
            all.push(state(theme, page, "", ""));
            all.push(state(theme, page, "a@b.com", "pw"));
            all.push(state(theme, page, "püß <&> \"quoted\" \\ \n\t", "😀 p@$$w0rd'; --"));
        }
    }
    all
}

#[test]
fn starts_dark_on_login_with_blank_form() {
    let s = RustUI::new();
    assert_eq!(s.theme, Theme::Dark);
    assert_eq!(s.page, Page::Login);
    assert_eq!(s.login_field.email, "");
    assert_eq!(s.login_field.password, "");
    assert_eq!(s.theme(), Theme::Dark);
}

#[test]
fn title_is_fixed() {
    assert_eq!(RustUI::new().title(), "Rust UI - Iced");
    assert_eq!(state(Theme::Light, Page::Register, "x", "y").title(), "Rust UI - Iced");
}

#[test]
fn toggle_flips_the_theme() {
    let mut s = RustUI::new();
    s.update(Message::ToggleTheme);
    assert_eq!(s.theme, Theme::Light);
    assert_eq!(s.theme(), Theme::Light);
    s.update(Message::ToggleTheme);
    assert_eq!(s.theme, Theme::Dark);
}

#[test]
fn toggle_twice_restores_every_state() {
    for before in every_state() {
        let mut s = before.clone();
        s.update(Message::ToggleTheme);
        assert_ne!(s.theme, before.theme);
        assert_eq!(s.page, before.page);
        assert_eq!(s.login_field, before.login_field);
        s.update(Message::ToggleTheme);
        assert_eq!(s, before);
    }
}

#[test]
fn field_change_overwrites_both_fields() {
    for before in every_state() {
        let mut s = before.clone();
        s.update(Message::LoginFieldChange("new@mail.org".to_string(), "secret".to_string()));
        assert_eq!(
            s.login_field,
            LoginField { email: "new@mail.org".to_string(), password: "secret".to_string() }
        );
        assert_eq!(s.theme, before.theme);
        assert_eq!(s.page, before.page);
    }
}

#[test]
fn field_change_does_not_merge_with_old_text() {
    let mut s = state(Theme::Dark, Page::Login, "old@mail.org", "old-password");
    s.update(Message::LoginFieldChange(String::new(), "n".to_string()));
    assert_eq!(s.login_field.email, "");
    assert_eq!(s.login_field.password, "n");
    s.update(Message::LoginFieldChange("e".to_string(), String::new()));
    assert_eq!(s.login_field.email, "e");
    assert_eq!(s.login_field.password, "");
}

#[test]
fn field_change_keeps_special_characters() {
    let mut s = RustUI::new();
    let email = "ünï@cødé.example \u{1F600}";
    let password = "tab\there \"q\" \\ \0 end";
    s.update(Message::LoginFieldChange(email.to_string(), password.to_string()));
    assert_eq!(s.login_field.email, email);
    assert_eq!(s.login_field.password, password);
}

#[test]
fn submit_changes_nothing() {
    for before in every_state() {
        let mut s = before.clone();
        s.update(Message::LoginSubmit);
        assert_eq!(s, before);
        s.update(Message::LoginSubmit);
        assert_eq!(s, before);
    }
}

#[test]
fn navigate_to_register_from_login() {
    let mut s = state(Theme::Dark, Page::Login, "", "");
    s.update(Message::Router("Register".to_string()));
    assert_eq!(s.page, Page::Register);
}

#[test]
fn navigate_to_login_from_register() {
    let mut s = state(Theme::Dark, Page::Register, "", "");
    s.update(Message::Router("Login".to_string()));
    assert_eq!(s.page, Page::Login);
}

#[test]
fn navigate_to_the_page_on_show_stays() {
    let mut s = state(Theme::Light, Page::Login, "a", "b");
    s.update(Message::Router("Login".to_string()));
    assert_eq!(s, state(Theme::Light, Page::Login, "a", "b"));
    let mut s = state(Theme::Light, Page::Register, "a", "b");
    s.update(Message::Router("Register".to_string()));
    assert_eq!(s, state(Theme::Light, Page::Register, "a", "b"));
}

#[test]
fn navigation_touches_only_the_page() {
    for before in every_state() {
        for page in [Page::Login, Page::Register] {
            let mut s = before.clone();
            s.update(Message::Router(page.route()));
            assert_eq!(s.page, page);
            assert_eq!(s.theme, before.theme);
            assert_eq!(s.login_field, before.login_field);
        }
    }
}

#[test]
fn unknown_route_is_ignored() {
    for before in every_state() {
        let mut s = before.clone();
        s.update(Message::Router("Unknown".to_string()));
        assert_eq!(s.page, before.page);
        assert_eq!(s, before);
    }
}

#[test]
fn near_miss_routes_are_ignored() {
    let routes = [
        "", "login", "LOGIN", "register", "Login ", " Login", "Logi", "Login\n", "Logim",
        "Registe", "Registex", "Registerr", "LoginRegister", "Lôgin", "Régister", "Page Two",
    ];
    for before in every_state() {
        for route in routes {
            let mut s = before.clone();
            s.update(Message::Router(route.to_string()));
            assert_eq!(s, before, "route {:?}", route);
        }
    }
}

#[test]
fn end_to_end_scenario() {
    let mut s = RustUI::new();
    assert_eq!(s, state(Theme::Dark, Page::Login, "", ""));
    s.update(Message::LoginFieldChange("a@b.com".to_string(), "pw".to_string()));
    s.update(Message::ToggleTheme);
    s.update(Message::Router("Register".to_string()));
    assert_eq!(s.theme, Theme::Light);
    assert_eq!(s.page, Page::Register);
    assert_eq!(s.login_field.email, "a@b.com");
    assert_eq!(s.login_field.password, "pw");
    assert_eq!(s, state(Theme::Light, Page::Register, "a@b.com", "pw"));
}

#[test]
fn form_text_survives_theme_and_page_changes() {
    let mut s = RustUI::new();
    s.update(Message::LoginFieldChange("kept@mail.org".to_string(), "kept".to_string()));
    for message in [
        Message::ToggleTheme,
        Message::Router("Register".to_string()),
        Message::LoginSubmit,
        Message::Router("Nowhere".to_string()),
        Message::Router("Login".to_string()),
        Message::ToggleTheme,
    ] {
        s.update(message);
        assert_eq!(s.login_field.email, "kept@mail.org");
        assert_eq!(s.login_field.password, "kept");
    }
    assert_eq!(s, state(Theme::Dark, Page::Login, "kept@mail.org", "kept"));
}

#[test]
fn clone_is_an_equal_and_separate_state() {
    let first = state(Theme::Light, Page::Register, "a@b.com", "pw");
    let mut copy = first.clone();
    assert_eq!(copy, first);
    copy.update(Message::ToggleTheme);
    copy.update(Message::LoginFieldChange("x".to_string(), "y".to_string()));
    assert_eq!(first, state(Theme::Light, Page::Register, "a@b.com", "pw"));
    assert_eq!(copy, state(Theme::Dark, Page::Register, "x", "y"));
}
