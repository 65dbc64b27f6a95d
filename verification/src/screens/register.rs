//! The registration screen: a new player types a user name and submits it.
use vstd::prelude::*;
use vstd::string::*;
use russh::keys::PublicKey;
use crate::conf::Conf;
use crate::keys::{Key, KeyPress};
use crate::screen::Next;
use crate::text::{erased, typed};

verus! {

/// The registration screen.
pub struct RegisterScreen {
    username: String,
    key: PublicKey,
    error: Option<String>,
    conf: Conf,
}

impl RegisterScreen {
    /// The user name typed so far.
    pub closed spec fn name(&self) -> Seq<char> {
        self.username@
    }

    /// The error message shown, if any.
    pub closed spec fn error_message(&self) -> Option<Seq<char>> {
        match self.error {
            Some(e) => Some(e@),
            None => None,
        }
    }

    /// The configuration of the screen.
    pub closed spec fn config(&self) -> Conf {
        self.conf
    }

    /// The SSH key of the session's connection.
    pub closed spec fn connection_key(&self) -> PublicKey {
        self.key
    }

    /// The SSH key of the session's connection, for the server's database work.
    pub fn key(&self) -> (res: &PublicKey)
        ensures
            *res == self.connection_key(),
    {
        &self.key
    }

    /// A registration screen with nothing typed and no error.
    pub fn new(conf: Conf, key: PublicKey) -> (res: RegisterScreen)
        ensures
            res.name() == Seq::<char>::empty(),
            res.error_message() is None,
            res.config() == conf,
            res.connection_key() == key,
    {
        RegisterScreen { username: String::new(), key, error: None, conf }
    }

    /// The user name typed so far.
    pub fn username(&self) -> (res: &str)
        ensures
            res@ == self.name(),
    {
        self.username.as_str()
    }

    /// The error message shown, if any.
    pub fn error(&self) -> (res: Option<&str>)
        ensures
            match res {
                Some(e) => self.error_message() == Some(e@),
                None => self.error_message() is None,
            },
    {
        match &self.error {
            Some(e) => Some(e.as_str()),
            None => None,
        }
    }

    /// Handles a key press: it clears the error, then Enter submits, a character is typed,
    /// Esc goes back to the home screen, Backspace erases, and other keys do nothing more.
    pub fn handle_input(&mut self, key: KeyPress) -> (res: Option<Next>)
        ensures
            final(self).config() == old(self).config(),
            final(self).connection_key() == old(self).connection_key(),
            match key.key {
                Key::Enter => if old(self).name().len() == 0 {
                    &&& res is None
                    &&& final(self).name() == old(self).name()
                    &&& final(self).error_message() == Some("username can not be empty"@)
                } else {
                    &&& res matches Some(Next::RegisterUser(n)) && n@ == old(self).name()
                    &&& final(self).name() == old(self).name()
                    &&& final(self).error_message() is None
                },
                Key::Char(c) => res is None && final(self).name() == typed(old(self).name(), c)
                    && final(self).error_message() is None,
                Key::Esc => res matches Some(Next::Home) && final(self).name() == old(self).name()
                    && final(self).error_message() is None,
                Key::Backspace => res is None && final(self).name() == erased(old(self).name())
                    && final(self).error_message() is None,
                _ => res is None && final(self).name() == old(self).name()
                    && final(self).error_message() is None,
            },
    {
        self.error = None;
        match key.key {
            Key::Enter => return self.submit(),
            Key::Char(c) => self.write_char(c),
            Key::Esc => {
                return Some(Next::Home);
            },
            Key::Backspace => self.delete(),
            _ => (),
        };
        None
    }

    /// Submits the typed name: an empty name is refused with an error; any other name is handed
    /// to the server to be registered.
    pub fn submit(&mut self) -> (res: Option<Next>)
        ensures
            final(self).name() == old(self).name(),
            final(self).config() == old(self).config(),
            final(self).connection_key() == old(self).connection_key(),
            old(self).name().len() == 0 ==> res is None && final(self).error_message() == Some(
                "username can not be empty"@,
            ),
            old(self).name().len() > 0 ==> final(self).error_message() == old(self).error_message(),
            old(self).name().len() > 0 ==> (res matches Some(Next::RegisterUser(n)) && n@ == old(
                self,
            ).name()),
    {
        if self.username.as_str().is_empty() {
            self.error = Some(String::from_str("username can not be empty"));
            return None;
        }
        Some(Next::RegisterUser(self.username.clone()))
    }

    /// Takes the outcome of registering the submitted name: on success the player's flags
    /// follow; a failure is shown as the error, and the screen stays.
    pub fn finish_registration(&mut self, outcome: Result<(), String>) -> (res: Option<Next>)
        ensures
            final(self).name() == old(self).name(),
            final(self).config() == old(self).config(),
            final(self).connection_key() == old(self).connection_key(),
            match outcome {
                Ok(()) => res matches Some(Next::Browse) && final(self).error_message()
                    == old(self).error_message(),
                Err(e) => res is None && final(self).error_message() == Some(e@),
            },
    {
        match outcome {
            Err(e) => {
                self.error = Some(e);
                None
            },
            Ok(()) => Some(Next::Browse),
        }
    }

    /// Types one character of the name.
    pub fn write_char(&mut self, c: char)
        ensures
            final(self).name() == typed(old(self).name(), c),
            final(self).error_message() == old(self).error_message(),
            final(self).config() == old(self).config(),
            final(self).connection_key() == old(self).connection_key(),
    {
        self.username.push(c);
    }

    /// Erases the last character of the name.
    pub fn delete(&mut self)
        ensures
            final(self).name() == erased(old(self).name()),
            final(self).error_message() == old(self).error_message(),
            final(self).config() == old(self).config(),
            final(self).connection_key() == old(self).connection_key(),
    {
        self.username.pop();
    }
}

} // verus!
