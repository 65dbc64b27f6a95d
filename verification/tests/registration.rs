use russh::keys::PublicKey;
use shacker::client::register::RegisterScreen;
use shacker::conf::Conf;
use shacker::keys::{Key, KeyPress, CONTROL, NO_MODIFIERS, SHIFT};
use shacker::screen::Next;
use shacker::screens::register::RegisterScreen as PlainRegisterScreen;

fn conf(password: Option<&str>) -> Conf {
    Conf::new(None, password.map(|p| p.to_string()), None, String::new())
}

fn player_key() -> PublicKey {
    PublicKey::from_openssh(
        "ssh-ed25519 AAAAC3NzaC1lZDI1NTE5AAAAIAECAwQFBgcICQoLDA0ODxAREhMUFRYXGBkaGxwdHh8g player@ctf",
    )
    .unwrap()
}

fn press(key: Key) -> Option<KeyPress> {
    Some(KeyPress::new(key, NO_MODIFIERS))
}

fn type_text(screen: &mut RegisterScreen, text: &str) {
    for c in text.chars() {
        assert!(screen.handle_input(press(Key::Char(c))).is_none());
    }
}

fn registered(next: Option<Next>) -> Option<String> {
    match next {
        Some(Next::RegisterUser(name)) => Some(name),
        _ => None,
    }
}

#[test]
fn register_starts_empty() {
    let screen = RegisterScreen::new(conf(Some("pw")), player_key());
    assert_eq!(screen.selected(), 0);
    assert_eq!(screen.username_field().area.lines(), [""]);
    assert_eq!(screen.password_field().area.lines(), [""]);
    assert_eq!(screen.password_field().area.mask_char(), Some('\u{2022}'));
    assert_eq!(screen.username_field().area.mask_char(), None);
    assert_eq!(screen.error(), None);
    assert_eq!(screen.key(), &player_key());
}

#[test]
fn register_open_server_registers_name() {
    let mut screen = RegisterScreen::new(conf(None), player_key());
    type_text(&mut screen, "Dz0N");
    assert_eq!(screen.username_field().area.lines(), ["Dz0N"]);
    assert_eq!(registered(screen.handle_input(press(Key::Enter))), Some("Dz0N".to_string()));
}

#[test]
fn register_empty_name_is_refused() {
    let mut screen = RegisterScreen::new(conf(None), player_key());
    assert!(screen.handle_input(press(Key::Enter)).is_none());
    assert_eq!(screen.error(), Some("username can not be empty"));
    screen.handle_input(press(Key::Char('a')));
    assert_eq!(screen.error(), None);
}

#[test]
fn register_password_flow() {
    let mut screen = RegisterScreen::new(conf(Some("pw")), player_key());
    type_text(&mut screen, "alice");
    assert!(screen.handle_input(press(Key::Enter)).is_none());
    assert_eq!(screen.selected(), 1);
    assert_eq!(screen.error(), None);
    type_text(&mut screen, "pw");
    assert_eq!(screen.username_field().area.lines(), ["alice"]);
    assert_eq!(screen.password_field().area.mask_char(), Some('\u{2022}'));
    assert_eq!(screen.password_field().area.lines(), ["pw"]);
    assert_eq!(registered(screen.handle_input(press(Key::Enter))), Some("alice".to_string()));
}

#[test]
fn register_wrong_password_is_refused() {
    let mut screen = RegisterScreen::new(conf(Some("pw")), player_key());
    type_text(&mut screen, "alice");
    screen.handle_input(press(Key::Tab));
    type_text(&mut screen, "nope");
    assert!(screen.handle_input(press(Key::Enter)).is_none());
    assert_eq!(screen.error(), Some("Wrong password"));
}

#[test]
fn register_empty_name_with_password() {
    let mut screen = RegisterScreen::new(conf(Some("pw")), player_key());
    screen.handle_input(press(Key::Down));
    type_text(&mut screen, "pw");
    assert!(screen.handle_input(press(Key::Enter)).is_none());
    assert_eq!(screen.error(), Some("username can not be empty"));
}

#[test]
fn register_focus_moves() {
    let mut screen = RegisterScreen::new(conf(Some("pw")), player_key());
    screen.handle_input(press(Key::Down));
    assert_eq!(screen.selected(), 1);
    screen.handle_input(press(Key::Tab));
    assert_eq!(screen.selected(), 1);
    assert!(screen.highlighted(1));
    assert!(!screen.highlighted(0));
    screen.handle_input(press(Key::Up));
    assert_eq!(screen.selected(), 0);
    screen.handle_input(press(Key::Up));
    assert_eq!(screen.selected(), 0);
    screen.handle_input(press(Key::Tab));
    screen.handle_input(Some(KeyPress::new(Key::BackTab, SHIFT)));
    assert_eq!(screen.selected(), 0);
}

#[test]
fn register_focus_stays_without_password() {
    let mut screen = RegisterScreen::new(conf(None), player_key());
    screen.handle_input(press(Key::Down));
    screen.handle_input(press(Key::Tab));
    screen.next();
    assert_eq!(screen.selected(), 0);
    assert!(!screen.shows_password_field());
    assert_eq!(screen.hint(), "^Q[QUIT] \u{21b5}[SUBMIT] \u{21f5}[NAV]");
    let with_password = RegisterScreen::new(conf(Some("pw")), player_key());
    assert!(with_password.shows_password_field());
    assert_eq!(with_password.hint(), "^Q[QUIT] \u{21b5}[SUBMIT]");
}

#[test]
fn register_backtab_without_shift_goes_to_field() {
    let mut screen = RegisterScreen::new(conf(Some("pw")), player_key());
    screen.handle_input(press(Key::Tab));
    assert!(screen.handle_input(Some(KeyPress::new(Key::BackTab, CONTROL))).is_none());
    assert_eq!(screen.selected(), 1);
}

#[test]
fn register_editing_keys_reach_the_field() {
    let mut screen = RegisterScreen::new(conf(None), player_key());
    type_text(&mut screen, "abc");
    screen.handle_input(press(Key::Backspace));
    assert_eq!(screen.username_field().area.lines(), ["ab"]);
    screen.handle_input(press(Key::Left));
    screen.handle_input(press(Key::Char('x')));
    assert_eq!(screen.username_field().area.lines(), ["axb"]);
}

#[test]
fn register_esc_goes_home() {
    let mut screen = RegisterScreen::new(conf(None), player_key());
    assert!(matches!(screen.handle_input(press(Key::Esc)), Some(Next::Home)));
    assert!(screen.handle_input(None).is_none());
}

#[test]
fn register_registration_outcome() {
    let mut screen = RegisterScreen::new(conf(None), player_key());
    assert!(screen.finish_registration(Err("user already exists".to_string())).is_none());
    assert_eq!(screen.error(), Some("user already exists"));
    assert!(matches!(screen.finish_registration(Ok(())), Some(Next::Browse)));
}

#[test]
fn plain_register_flow() {
    let mut screen = PlainRegisterScreen::new(conf(None), player_key());
    assert!(screen.handle_input(KeyPress::new(Key::Enter, NO_MODIFIERS)).is_none());
    assert_eq!(screen.error(), Some("username can not be empty"));
    for c in "bob".chars() {
        assert!(screen.handle_input(KeyPress::new(Key::Char(c), NO_MODIFIERS)).is_none());
    }
    assert_eq!(screen.error(), None);
    screen.handle_input(KeyPress::new(Key::Backspace, NO_MODIFIERS));
    assert_eq!(screen.username(), "bo");
    screen.write_char('b');
    screen.delete();
    assert_eq!(screen.username(), "bo");
    assert!(screen.handle_input(KeyPress::new(Key::Up, NO_MODIFIERS)).is_none());
    assert_eq!(registered(screen.handle_input(KeyPress::new(Key::Enter, NO_MODIFIERS))), Some("bo".to_string()));
    assert!(matches!(screen.handle_input(KeyPress::new(Key::Esc, NO_MODIFIERS)), Some(Next::Home)));
    assert!(screen.finish_registration(Err("taken".to_string())).is_none());
    assert_eq!(screen.error(), Some("taken"));
    assert!(matches!(screen.finish_registration(Ok(())), Some(Next::Browse)));
}
