//! The admin interface's login screen: the admin types the admin password and submits it.
use vstd::prelude::*;
use crate::conf::Conf;
use crate::keys::{Key, KeyPress};
use crate::screen::Next;
use crate::text::{erased, typed};

verus! {

/// The admin login screen.
pub struct LoginScreen {
    password_input: String,
    conf: Conf,
    error: Option<String>,
}

/// Whether `input` opens the admin interface under `admin_password`: it does when no admin
/// password is set, and otherwise only when it is that password.
pub open spec fn admin_password_accepts(admin_password: Option<String>, input: Seq<char>) -> bool {
    match admin_password {
        None => true,
        Some(p) => p@ == input,
    }
}

impl LoginScreen {
    /// What the admin has typed so far.
    pub closed spec fn input(&self) -> Seq<char> {
        self.password_input@
    }

    /// The configuration the screen checks against.
    pub closed spec fn config(&self) -> Conf {
        self.conf
    }

    /// The error message shown, if any.
    pub closed spec fn error_message(&self) -> Option<String> {
        self.error
    }

    /// What the admin has typed so far.
    pub fn password_input(&self) -> (res: &str)
        ensures
            res@ == self.input(),
    {
        self.password_input.as_str()
    }

    /// The error message shown, if any.
    pub fn error(&self) -> (res: Option<&str>)
        ensures
            match res {
                Some(e) => self.error_message() matches Some(m) && m@ == e@,
                None => self.error_message() is None,
            },
    {
        match &self.error {
            Some(e) => Some(e.as_str()),
            None => None,
        }
    }

    /// A login screen with nothing typed and no error.
    pub fn new(conf: Conf) -> (res: LoginScreen)
        ensures
            res.input() == Seq::<char>::empty(),
            res.config() == conf,
            res.error_message() is None,
    {
        LoginScreen { password_input: String::new(), error: None, conf }
    }

    /// Erases the last character typed.
    pub fn erase(&mut self)
        ensures
            final(self).input() == erased(old(self).input()),
            final(self).config() == old(self).config(),
            final(self).error_message() == old(self).error_message(),
    {
        self.password_input.pop();
    }

    /// Types one character.
    pub fn write_char(&mut self, c: char)
        ensures
            final(self).input() == typed(old(self).input(), c),
            final(self).config() == old(self).config(),
            final(self).error_message() == old(self).error_message(),
    {
        self.password_input.push(c);
    }

    /// Submits what was typed: the admin screen follows when the admin password accepts it;
    /// otherwise the screen stays as it is.
    pub fn submit(&mut self) -> (res: Option<Next>)
        ensures
            final(self).input() == old(self).input(),
            final(self).config() == old(self).config(),
            final(self).error_message() == old(self).error_message(),
            admin_password_accepts(old(self).config().admin_password, old(self).input())
                ==> res matches Some(Next::Admin),
            !admin_password_accepts(old(self).config().admin_password, old(self).input())
                ==> res is None,
            old(self).config().admin_password is None ==> res matches Some(Next::Admin),
            old(self).config().admin_password matches Some(p) && p@ == old(self).input()
                ==> res matches Some(Next::Admin),
            old(self).config().admin_password matches Some(p) && p@ != old(self).input()
                ==> res is None,
    {
        let accepted = match &self.conf.admin_password {
            None => true,
            Some(p) => *p == self.password_input,
        };
        if accepted {
            Some(Next::Admin)
        } else {
            None
        }
    }

    /// Handles one turn of input, where `key` is the key pressed, if any. With no key nothing
    /// happens; a key clears the error, then Enter submits, Backspace erases, a character is
    /// typed, and other keys do nothing more.
    pub fn handle_input(&mut self, key: Option<KeyPress>) -> (res: Option<Next>)
        ensures
            final(self).config() == old(self).config(),
            key is None ==> res is None && final(self).input() == old(self).input()
                && final(self).error_message() == old(self).error_message(),
            key is Some ==> final(self).error_message() is None,
            key matches Some(k) ==> match k.key {
                Key::Enter => final(self).input() == old(self).input() && (if admin_password_accepts(
                    old(self).config().admin_password,
                    old(self).input(),
                ) {
                    res matches Some(Next::Admin)
                } else {
                    res is None
                }),
                Key::Backspace => final(self).input() == erased(old(self).input()) && res is None,
                Key::Char(c) => final(self).input() == typed(old(self).input(), c) && res is None,
                _ => final(self).input() == old(self).input() && res is None,
            },
    {
        let key = match key {
            None => return None,
            Some(k) => k,
        };
        self.error = None;
        match key.key {
            Key::Enter => return self.submit(),
            Key::Backspace => self.erase(),
            Key::Char(c) => self.write_char(c),
            _ => (),
        }
        None
    }
}

/// The admin interface opens on exactly the typed texts that equal the admin password, whatever
/// their length or content, and on every text when no admin password is set.
pub proof fn law_admin_password_accepts_exactly(admin_password: Option<String>, input: Seq<char>)
    ensures
        admin_password is None ==> admin_password_accepts(admin_password, input),
        admin_password matches Some(p) ==> (admin_password_accepts(admin_password, input) <==> p@
            == input),
{
}

} // verus!
