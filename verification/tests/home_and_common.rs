use russh::keys::PublicKey;
use shacker::conf::Conf;
use shacker::keys::{Key, KeyPress, NO_MODIFIERS};
use shacker::screen::{screen_content_area, Area, Next, ScreenType};
use shacker::screens::home::{after_login, key_response, login_due, HomeScreen};
use shacker::text::{decimal_string, line_stats};
use shacker::users::{create_user, database_ready, CreateUserError, FileCreation, QueryStep};

fn player_key() -> PublicKey {
    PublicKey::from_openssh(
        "ssh-ed25519 AAAAC3NzaC1lZDI1NTE5AAAAIAECAwQFBgcICQoLDA0ODxAREhMUFRYXGBkaGxwdHh8g player@ctf",
    )
    .unwrap()
}

fn banner_conf(banner: &str) -> Conf {
    Conf::new(None, None, None, banner.to_string())
}

#[test]
fn screen_type_defaults_to_register() {
    assert_eq!(ScreenType::default(), ScreenType::Register);
}

#[test]
fn content_area_inside_border() {
    let inner = screen_content_area(Area { x: 0, y: 0, width: 80, height: 24 });
    assert_eq!(inner, Area { x: 1, y: 1, width: 78, height: 22 });
    let moved = screen_content_area(Area { x: 5, y: 7, width: 2, height: 3 });
    assert_eq!(moved, Area { x: 6, y: 8, width: 0, height: 1 });
    let too_small = screen_content_area(Area { x: 5, y: 7, width: 1, height: 30 });
    assert_eq!(too_small, Area { x: 0, y: 0, width: 0, height: 0 });
    let edge = screen_content_area(Area { x: u16::MAX, y: 0, width: 4, height: 4 });
    assert_eq!(edge, Area { x: u16::MAX, y: 1, width: 2, height: 2 });
}

#[test]
fn home_waits_for_the_banner() {
    assert!(!login_due(0, 0));
    assert!(!login_due(3, 0));
    assert!(login_due(3, 1));
    assert!(login_due(4, 0));
    let mut screen = HomeScreen::new(banner_conf("hi"), player_key());
    assert!(screen.handle_input(KeyPress::new(Key::Enter, NO_MODIFIERS)).is_none());
    assert_eq!(screen.key(), &player_key());
}

#[test]
fn home_key_response() {
    assert!(key_response(0, 0).is_none());
    assert!(key_response(2, 999_999_999).is_none());
    assert!(key_response(3, 0).is_none());
    assert!(matches!(key_response(3, 1), Some(Next::LookUpUser)));
    assert!(matches!(key_response(60, 0), Some(Next::LookUpUser)));
}

#[test]
fn home_after_lookup() {
    assert!(matches!(after_login(true), Next::Browse));
    assert!(matches!(after_login(false), Next::Register));
}

#[test]
fn home_banner_size() {
    assert_eq!(HomeScreen::new(banner_conf(""), player_key()).banner_size(), (1, 0));
    assert_eq!(HomeScreen::new(banner_conf("SSHACK"), player_key()).banner_size(), (2, 6));
    assert_eq!(HomeScreen::new(banner_conf("ab\r\ncde\n"), player_key()).banner_size(), (3, 3));
    assert_eq!(HomeScreen::new(banner_conf("a\n\n  \u{2588}\u{2588}\r"), player_key()).banner_size(), (4, 5));
}

#[test]
fn line_stats_match_str_lines() {
    for text in ["", "\n", "a", "a\n", "a\r\nbb", "x\r", "one\ntwo\r\n\nthree\r\r\n", "\r\n\r\n"] {
        let lines: Vec<&str> = text.lines().collect();
        let widest = lines.iter().map(|l| l.chars().count()).max().unwrap_or(0);
        assert_eq!(line_stats(text), (lines.len(), widest), "{:?}", text);
    }
}

#[test]
fn decimal_numerals() {
    assert_eq!(decimal_string(0), "0");
    assert_eq!(decimal_string(7), "7");
    assert_eq!(decimal_string(10), "10");
    assert_eq!(decimal_string(100), "100");
    assert_eq!(decimal_string(u64::MAX), u64::MAX.to_string());
}

#[test]
fn create_user_refuses_existing_name() {
    assert_eq!(create_user(QueryStep::Row), Err(CreateUserError::AlreadyExists));
    assert_eq!(create_user(QueryStep::Done), Ok(()));
    assert_eq!(create_user(QueryStep::Failed), Ok(()));
    assert_eq!(CreateUserError::AlreadyExists.message(), "user already exists");
}

#[test]
fn database_file_readiness() {
    assert!(database_ready(FileCreation::Created));
    assert!(database_ready(FileCreation::AlreadyExists));
    assert!(!database_ready(FileCreation::Failed));
}
