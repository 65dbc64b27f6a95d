use shacker::admin::login::LoginScreen;
use shacker::conf::Conf;
use shacker::keys::{Key, KeyPress, CONTROL, NO_MODIFIERS};
use shacker::screen::Next;

fn conf(admin_password: Option<&str>) -> Conf {
    Conf::new(admin_password.map(|p| p.to_string()), None, None, String::new())
}

fn press(key: Key) -> Option<KeyPress> {
    Some(KeyPress::new(key, NO_MODIFIERS))
}

#[test]
fn login_starts_empty() {
    let screen = LoginScreen::new(conf(Some("secret")));
    assert_eq!(screen.password_input(), "");
    assert_eq!(screen.error(), None);
}

#[test]
fn login_typing_and_erasing() {
    let mut screen = LoginScreen::new(conf(Some("secret")));
    screen.write_char('a');
    screen.write_char('b');
    assert_eq!(screen.password_input(), "ab");
    screen.erase();
    assert_eq!(screen.password_input(), "a");
    screen.erase();
    screen.erase();
    assert_eq!(screen.password_input(), "");
}

#[test]
fn login_erase_undoes_write_char() {
    let mut screen = LoginScreen::new(conf(None));
    screen.write_char('x');
    screen.write_char('y');
    screen.write_char('z');
    screen.erase();
    assert_eq!(screen.password_input(), "xy");
}

#[test]
fn login_right_password_opens_admin() {
    let mut screen = LoginScreen::new(conf(Some("pw")));
    assert!(screen.handle_input(press(Key::Char('p'))).is_none());
    assert!(screen.handle_input(press(Key::Char('w'))).is_none());
    let next = screen.handle_input(press(Key::Enter));
    assert!(matches!(next, Some(Next::Admin)));
}

#[test]
fn login_wrong_password_is_refused() {
    let mut screen = LoginScreen::new(conf(Some("pw")));
    screen.handle_input(press(Key::Char('p')));
    assert!(screen.handle_input(press(Key::Enter)).is_none());
    assert!(screen.submit().is_none());
    assert_eq!(screen.password_input(), "p");
}

#[test]
fn login_without_admin_password_is_open() {
    let mut screen = LoginScreen::new(conf(None));
    assert!(matches!(screen.submit(), Some(Next::Admin)));
    screen.write_char('q');
    assert!(matches!(screen.submit(), Some(Next::Admin)));
}

#[test]
fn login_no_key_changes_nothing() {
    let mut screen = LoginScreen::new(conf(Some("pw")));
    screen.write_char('a');
    assert!(screen.handle_input(None).is_none());
    assert_eq!(screen.password_input(), "a");
}

#[test]
fn login_keys_edit_the_input() {
    let mut screen = LoginScreen::new(conf(Some("pw")));
    screen.handle_input(press(Key::Char('a')));
    screen.handle_input(Some(KeyPress::new(Key::Char('b'), CONTROL)));
    assert_eq!(screen.password_input(), "ab");
    screen.handle_input(press(Key::Backspace));
    assert_eq!(screen.password_input(), "a");
    assert!(screen.handle_input(press(Key::Esc)).is_none());
    assert!(screen.handle_input(press(Key::Tab)).is_none());
    assert_eq!(screen.password_input(), "a");
    assert_eq!(screen.error(), None);
}
