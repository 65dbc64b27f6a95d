//! The registration screen of the player interface: a user name field and, where the server
//! asks for one, a password field.
use vstd::prelude::*;
use vstd::string::*;
use ratatui::crossterm::event::{KeyCode as TermKeyCode, KeyEvent, KeyModifiers};
use ratatui_textarea::TextArea;
use russh::keys::PublicKey;
use crate::conf::Conf;
use crate::keys::{Key, KeyPress, SHIFT};
use crate::screen::Next;

verus! {

/// A text field: ratatui-textarea's text editor widget, hidden from the verifier; the server
/// draws `area`.
#[verifier::external_body]
pub struct TextField {
    pub area: TextArea<'static>,
}

/// The lines of text that a text field holds.
pub uninterp spec fn field_lines(field: TextField) -> Seq<Seq<char>>;

/// The character that a text field shows in place of each of its characters, if any.
pub uninterp spec fn field_mask(field: TextField) -> Option<char>;

/// The lines of text that a text field holds after its editor is given a key press. They
/// follow from the field as it was (its lines, cursor, selection and history) and the key.
pub uninterp spec fn lines_after_input(field: TextField, key: KeyPress) -> Seq<Seq<char>>;

impl TextField {
    /// Calls `TextArea::default`, which its source writes as
    /// `TextArea::new(vec![String::new()])`: a text area holding one empty line, with no mask
    /// (`new` sets `mask: None`).
    #[verifier::external_body]
    fn new() -> (res: TextField)
        ensures
            field_lines(res) == seq![Seq::<char>::empty()],
            field_mask(res) is None,
    {
        TextField { area: TextArea::default() }
    }

    /// Calls `TextArea::set_mask_char`, which in its source sets the mask to `Some(mask)` and
    /// refreshes the screen map, so the lines stay as they were.
    #[verifier::external_body]
    fn set_mask_char(&mut self, mask: char)
        ensures
            field_lines(*final(self)) == field_lines(*old(self)),
            field_mask(*final(self)) == Some(mask),
    {
        self.area.set_mask_char(mask)
    }

    /// Calls `TextArea::input` with the key press, converted to the terminal's key event. What
    /// the editor makes of a key depends on the field's cursor, selection and history as well
    /// as on its lines, so the lines it leaves are named, `lines_after_input` of the field as
    /// it was and the key, rather than written out; the contract also says that there is still
    /// at least one line, the invariant that `input` checks at its end in its source, and that
    /// the mask stays (only `set_mask_char` and `clear_mask_char` write it).
    #[verifier::external_body]
    fn input(&mut self, key: KeyPress)
        ensures
            field_lines(*final(self)) == lines_after_input(*old(self), key),
            field_lines(*final(self)).len() > 0,
            field_mask(*final(self)) == field_mask(*old(self)),
    {
        let code = match key.key {
            Key::Enter => TermKeyCode::Enter, Key::Backspace => TermKeyCode::Backspace,
            Key::Esc => TermKeyCode::Esc, Key::Tab => TermKeyCode::Tab,
            Key::BackTab => TermKeyCode::BackTab, Key::Up => TermKeyCode::Up,
            Key::Down => TermKeyCode::Down, Key::Left => TermKeyCode::Left,
            Key::Right => TermKeyCode::Right, Key::Char(c) => TermKeyCode::Char(c),
            Key::Other(code) => code,
        };
        self.area.input(KeyEvent::new(code, KeyModifiers::from_bits_retain(key.modifiers)));
    }

    /// Calls `TextArea::is_empty`, which its source writes as `self.lines == [""]`.
    #[verifier::external_body]
    fn is_empty(&self) -> (res: bool)
        ensures
            res == (field_lines(*self) == seq![Seq::<char>::empty()]),
    {
        self.area.is_empty()
    }

    /// Calls `TextArea::lines` and takes the first line.
    #[verifier::external_body]
    fn first_line(&self) -> (res: &String)
        requires
            field_lines(*self).len() > 0,
        ensures
            res@ == field_lines(*self)[0],
    {
        &self.area.lines()[0]
    }
}

/// The field that has the focus after moving down: the password field (the second and last),
/// where there is one.
pub open spec fn next_field(selected: u8, has_password: bool) -> u8 {
    if has_password {
        1
    } else {
        selected
    }
}

/// The field that has the focus after moving up: the one before, where there is a password
/// field to move between.
pub open spec fn previous_field(selected: u8, has_password: bool) -> u8 {
    if has_password && selected > 0 {
        (selected - 1) as u8
    } else {
        selected
    }
}

/// The key hints at the bottom of the registration screen.
pub open spec fn register_hint_text(has_password: bool) -> Seq<char> {
    if has_password {
        "^Q[QUIT] \u{21b5}[SUBMIT]"@
    } else {
        "^Q[QUIT] \u{21b5}[SUBMIT] \u{21f5}[NAV]"@
    }
}

/// The registration screen: the two fields, which one has the focus (0 for the user name,
/// 1 for the password), and the error shown.
pub struct RegisterScreen {
    username: TextField,
    password: TextField,
    selected: u8,
    key: PublicKey,
    error: Option<String>,
    conf: Conf,
}

impl RegisterScreen {
    /// The focus is on one of the two fields, on the password field only where the server asks
    /// for a password, and both fields hold at least one line.
    #[verifier::type_invariant]
    closed spec fn well_formed(self) -> bool {
        &&& self.selected <= 1
        &&& self.selected == 1 ==> self.conf.password is Some
        &&& field_lines(self.username).len() > 0
        &&& field_lines(self.password).len() > 0
    }

    /// The user name field.
    pub closed spec fn name_field(&self) -> TextField {
        self.username
    }

    /// The password field.
    pub closed spec fn secret_field(&self) -> TextField {
        self.password
    }

    /// The lines of the user name field.
    pub closed spec fn name_lines(&self) -> Seq<Seq<char>> {
        field_lines(self.username)
    }

    /// The lines of the password field.
    pub closed spec fn password_lines(&self) -> Seq<Seq<char>> {
        field_lines(self.password)
    }

    /// The field with the focus: 0 for the user name, 1 for the password.
    pub closed spec fn focus(&self) -> u8 {
        self.selected
    }

    /// The error shown, if any.
    pub closed spec fn error_message(&self) -> Option<Seq<char>> {
        match self.error {
            Some(e) => Some(e@),
            None => None,
        }
    }

    /// The configuration of the screen.
    pub closed spec fn config(&self) -> Conf {
        self.conf
    }

    /// The SSH key of the session's connection.
    pub closed spec fn connection_key(&self) -> PublicKey {
        self.key
    }

    /// The SSH key of the session's connection, for the server's database work.
    pub fn key(&self) -> (res: &PublicKey)
        ensures
            *res == self.connection_key(),
    {
        &self.key
    }

    /// Whether the server asks for a password.
    pub open spec fn has_password(&self) -> bool {
        self.config().password is Some
    }

    /// A registration screen with both fields empty, the password field masked with a bullet
    /// and the user name field not masked, the focus on the user name and no error.
    pub fn new(conf: Conf, key: PublicKey) -> (res: RegisterScreen)
        ensures
            res.name_lines() == seq![Seq::<char>::empty()],
            res.password_lines() == seq![Seq::<char>::empty()],
            field_mask(res.name_field()) is None,
            field_mask(res.secret_field()) == Some('\u{2022}'),
            res.focus() == 0,
            res.error_message() is None,
            res.config() == conf,
            res.connection_key() == key,
    {
        let mut password_text_area = TextField::new();
        password_text_area.set_mask_char('\u{2022}');
        RegisterScreen {
            username: TextField::new(),
            password: password_text_area,
            selected: 0,
            key,
            error: None,
            conf,
        }
    }

    /// The user name field, for drawing it.
    pub fn username_field(&self) -> (res: &TextField)
        ensures
            field_lines(*res) == self.name_lines(),
    {
        &self.username
    }

    /// The password field, for drawing it.
    pub fn password_field(&self) -> (res: &TextField)
        ensures
            field_lines(*res) == self.password_lines(),
    {
        &self.password
    }

    /// The field with the focus: 0 for the user name, 1 for the password.
    pub fn selected(&self) -> (res: u8)
        ensures
            res == self.focus(),
            res <= 1,
            res == 1 ==> self.has_password(),
    {
        proof {
            use_type_invariant(self);
        }
        self.selected
    }

    /// The error shown, if any.
    pub fn error(&self) -> (res: Option<&str>)
        ensures
            match res {
                Some(e) => self.error_message() == Some(e@),
                None => self.error_message() is None,
            },
    {
        match &self.error {
            Some(e) => Some(e.as_str()),
            None => None,
        }
    }

    /// Whether the screen shows a password field: where the server asks for a password.
    pub fn shows_password_field(&self) -> (res: bool)
        ensures
            res == self.has_password(),
    {
        self.conf.password.is_some()
    }

    /// Whether field `field` (0 for the user name, 1 for the password) is drawn highlighted:
    /// the one with the focus is.
    pub fn highlighted(&self, field: u8) -> (res: bool)
        ensures
            res == (self.focus() == field),
    {
        self.selected == field
    }

    /// The key hints at the bottom of the screen.
    pub fn hint(&self) -> (res: &'static str)
        ensures
            res@ == register_hint_text(self.has_password()),
    {
        if self.conf.password.is_some() {
            "^Q[QUIT] \u{21b5}[SUBMIT]"
        } else {
            "^Q[QUIT] \u{21b5}[SUBMIT] \u{21f5}[NAV]"
        }
    }

    /// Moves the focus down to the password field, where there is one.
    pub fn next(&mut self)
        ensures
            final(self).focus() == next_field(old(self).focus(), old(self).has_password()),
            final(self).name_lines() == old(self).name_lines(),
            final(self).password_lines() == old(self).password_lines(),
            final(self).name_field() == old(self).name_field(),
            final(self).secret_field() == old(self).secret_field(),
            final(self).error_message() == old(self).error_message(),
            final(self).config() == old(self).config(),
            final(self).connection_key() == old(self).connection_key(),
    {
        proof {
            use_type_invariant(&*self);
        }
        if self.conf.password.is_some() {
            let next = if self.selected + 1 < 1 {
                self.selected + 1
            } else {
                1
            };
            self.selected = next;
        }
    }

    /// Moves the focus up to the user name field, where there is a password field to move from.
    pub fn prev(&mut self)
        ensures
            final(self).focus() == previous_field(old(self).focus(), old(self).has_password()),
            final(self).name_lines() == old(self).name_lines(),
            final(self).password_lines() == old(self).password_lines(),
            final(self).name_field() == old(self).name_field(),
            final(self).secret_field() == old(self).secret_field(),
            final(self).error_message() == old(self).error_message(),
            final(self).config() == old(self).config(),
            final(self).connection_key() == old(self).connection_key(),
    {
        proof {
            use_type_invariant(&*self);
        }
        if self.conf.password.is_some() {
            self.selected = self.selected.saturating_sub(1);
        }
    }

    /// Submits the form. Where the server asks for a password and the focus is on the user
    /// name, the focus moves on to the password instead. Otherwise an empty user name is
    /// refused, then a password other than the server's is refused, each with its error; a
    /// form that passes hands the first line of the user name to the server to register.
    pub fn submit(&mut self) -> (res: Option<Next>)
        ensures
            final(self).name_lines() == old(self).name_lines(),
            final(self).password_lines() == old(self).password_lines(),
            final(self).name_field() == old(self).name_field(),
            final(self).secret_field() == old(self).secret_field(),
            final(self).config() == old(self).config(),
            final(self).connection_key() == old(self).connection_key(),
            old(self).has_password() && old(self).focus() == 0 ==> {
                &&& res is None
                &&& final(self).focus() == 1
                &&& final(self).error_message() == old(self).error_message()
            },
            !(old(self).has_password() && old(self).focus() == 0) ==> {
                &&& final(self).focus() == old(self).focus()
                &&& if old(self).name_lines() == seq![Seq::<char>::empty()] {
                    &&& res is None
                    &&& final(self).error_message() == Some("username can not be empty"@)
                } else if old(self).has_password() && old(self).config().password->0@
                    != old(self).password_lines()[0] {
                    &&& res is None
                    &&& final(self).error_message() == Some("Wrong password"@)
                } else {
                    &&& res matches Some(Next::RegisterUser(name)) && name@ == old(
                        self,
                    ).name_lines()[0]
                    &&& final(self).error_message() == old(self).error_message()
                }
            },
    {
        proof {
            use_type_invariant(&*self);
        }
        if self.conf.password.is_some() && self.selected == 0 {
            self.selected = 1;
            return None;
        }
        if self.username.is_empty() {
            self.error = Some(String::from_str("username can not be empty"));
            return None;
        }
        let wrong = match &self.conf.password {
            Some(x) => *x != *self.password.first_line(),
            None => false,
        };
        if wrong {
            self.error = Some(String::from_str("Wrong password"));
            return None;
        }
        Some(Next::RegisterUser(self.username.first_line().clone()))
    }

    /// Takes the outcome of registering the submitted name: on success the player's flags
    /// follow; a failure is shown as the error, and the screen stays.
    pub fn finish_registration(&mut self, outcome: Result<(), String>) -> (res: Option<Next>)
        ensures
            final(self).name_lines() == old(self).name_lines(),
            final(self).password_lines() == old(self).password_lines(),
            final(self).name_field() == old(self).name_field(),
            final(self).secret_field() == old(self).secret_field(),
            final(self).focus() == old(self).focus(),
            final(self).config() == old(self).config(),
            final(self).connection_key() == old(self).connection_key(),
            match outcome {
                Ok(()) => res matches Some(Next::Browse) && final(self).error_message()
                    == old(self).error_message(),
                Err(e) => res is None && final(self).error_message() == Some(e@),
            },
    {
        proof {
            use_type_invariant(&*self);
        }
        match outcome {
            Err(e) => {
                self.error = Some(e);
                None
            },
            Ok(()) => Some(Next::Browse),
        }
    }

    /// Gives a key to the field with the focus, which then holds what its editor makes of the
    /// key; the other field stays as it was.
    fn input_to_field(&mut self, key: KeyPress)
        ensures
            old(self).focus() == 0 ==> final(self).name_lines() == lines_after_input(
                old(self).name_field(),
                key,
            ),
            old(self).focus() == 1 ==> final(self).password_lines() == lines_after_input(
                old(self).secret_field(),
                key,
            ),
            field_mask(final(self).name_field()) == field_mask(old(self).name_field()),
            field_mask(final(self).secret_field()) == field_mask(old(self).secret_field()),
            old(self).focus() == 0 ==> final(self).password_lines() == old(self).password_lines(),
            old(self).focus() == 1 ==> final(self).name_lines() == old(self).name_lines(),
            old(self).focus() == 0 ==> final(self).secret_field() == old(self).secret_field(),
            old(self).focus() == 1 ==> final(self).name_field() == old(self).name_field(),
            final(self).focus() == old(self).focus(),
            final(self).error_message() == old(self).error_message(),
            final(self).config() == old(self).config(),
            final(self).connection_key() == old(self).connection_key(),
    {
        proof {
            use_type_invariant(&*self);
        }
        match self.selected {
            0 => {
                let mut field = TextField::new();
                std::mem::swap(&mut field, &mut self.username);
                field.input(key);
                self.username = field;
            },
            1 => {
                let mut field = TextField::new();
                std::mem::swap(&mut field, &mut self.password);
                field.input(key);
                self.password = field;
            },
            _ => (),
        };
    }

    /// Handles one turn of input, where `key` is the key pressed, if any. With no key nothing
    /// happens. A key clears the error; then Enter submits, Up or Shift+BackTab moves the focus
    /// up, Down or Tab moves it down, Esc goes back to the home screen, and every other key goes
    /// to the field with the focus.
    pub fn handle_input(&mut self, key: Option<KeyPress>) -> (res: Option<Next>)
        ensures
            final(self).config() == old(self).config(),
            final(self).connection_key() == old(self).connection_key(),
            key is None ==> {
                &&& res is None
                &&& *final(self) == *old(self)
                &&& final(self).name_lines() == old(self).name_lines()
                &&& final(self).password_lines() == old(self).password_lines()
                &&& final(self).focus() == old(self).focus()
                &&& final(self).error_message() == old(self).error_message()
            },
            key matches Some(k) ==> match k.key {
                Key::Enter => submit_outcome(*old(self), *final(self), res),
                Key::Up => moved(*old(self), *final(self), res, previous_field(
                    old(self).focus(),
                    old(self).has_password(),
                )),
                Key::BackTab => if k.modifiers == SHIFT {
                    moved(*old(self), *final(self), res, previous_field(
                        old(self).focus(),
                        old(self).has_password(),
                    ))
                } else {
                    typed_into_field(*old(self), *final(self), res, k)
                },
                Key::Down | Key::Tab => moved(*old(self), *final(self), res, next_field(
                    old(self).focus(),
                    old(self).has_password(),
                )),
                Key::Esc => {
                    &&& res matches Some(Next::Home)
                    &&& final(self).name_lines() == old(self).name_lines()
                    &&& final(self).password_lines() == old(self).password_lines()
                    &&& final(self).name_field() == old(self).name_field()
                    &&& final(self).secret_field() == old(self).secret_field()
                    &&& final(self).focus() == old(self).focus()
                    &&& final(self).error_message() is None
                },
                _ => typed_into_field(*old(self), *final(self), res, k),
            },
    {
        let key = match key {
            None => return None,
            Some(k) => k,
        };
        proof {
            use_type_invariant(&*self);
        }
        self.error = None;
        match key.key {
            Key::Enter => return self.submit(),
            Key::Up => self.prev(),
            Key::BackTab if key.modifiers == SHIFT => self.prev(),
            Key::Down | Key::Tab => self.next(),
            Key::Esc => {
                return Some(Next::Home);
            },
            _ => self.input_to_field(key),
        };
        None
    }
}

/// What Enter does, from the screen with its error cleared: what `submit` says.
pub open spec fn submit_outcome(before: RegisterScreen, after: RegisterScreen, res: Option<Next>) -> bool {
    &&& after.name_lines() == before.name_lines()
    &&& after.password_lines() == before.password_lines()
    &&& after.name_field() == before.name_field()
    &&& after.secret_field() == before.secret_field()
    &&& before.has_password() && before.focus() == 0 ==> {
        &&& res is None
        &&& after.focus() == 1
        &&& after.error_message() is None
    }
    &&& !(before.has_password() && before.focus() == 0) ==> {
        &&& after.focus() == before.focus()
        &&& if before.name_lines() == seq![Seq::<char>::empty()] {
            &&& res is None
            &&& after.error_message() == Some("username can not be empty"@)
        } else if before.has_password() && before.config().password->0@ != before.password_lines()[0] {
            &&& res is None
            &&& after.error_message() == Some("Wrong password"@)
        } else {
            &&& res matches Some(Next::RegisterUser(name)) && name@ == before.name_lines()[0]
            &&& after.error_message() is None
        }
    }
}

/// A move of the focus to `focus`, which leaves the fields as they were and clears the error.
pub open spec fn moved(before: RegisterScreen, after: RegisterScreen, res: Option<Next>, focus: u8) -> bool {
    &&& res is None
    &&& after.focus() == focus
    &&& after.name_lines() == before.name_lines()
    &&& after.password_lines() == before.password_lines()
    &&& after.name_field() == before.name_field()
    &&& after.secret_field() == before.secret_field()
    &&& after.error_message() is None
}

/// A key given to the field with the focus: that field holds what its editor makes of the key,
/// the other field and the focus stay, and the error is cleared.
pub open spec fn typed_into_field(
    before: RegisterScreen,
    after: RegisterScreen,
    res: Option<Next>,
    key: KeyPress,
) -> bool {
    &&& res is None
    &&& after.focus() == before.focus()
    &&& before.focus() == 0 ==> after.name_lines() == lines_after_input(before.name_field(), key)
    &&& before.focus() == 1 ==> after.password_lines() == lines_after_input(
        before.secret_field(),
        key,
    )
    &&& field_mask(after.name_field()) == field_mask(before.name_field())
    &&& field_mask(after.secret_field()) == field_mask(before.secret_field())
    &&& before.focus() == 0 ==> after.password_lines() == before.password_lines()
    &&& before.focus() == 1 ==> after.name_lines() == before.name_lines()
    &&& before.focus() == 0 ==> after.secret_field() == before.secret_field()
    &&& before.focus() == 1 ==> after.name_field() == before.name_field()
    &&& after.error_message() is None
}

/// Where the server asks for a password, moving the focus down then up, or up then down,
/// comes back to where it was; where it does not, the focus never moves off the user name.
pub proof fn law_focus_moves(focus: u8, has_password: bool)
    requires
        focus <= 1,
        focus == 1 ==> has_password,
    ensures
        has_password && focus == 0 ==> previous_field(next_field(focus, has_password), has_password)
            == focus,
        has_password && focus == 1 ==> next_field(previous_field(focus, has_password), has_password)
            == focus,
        !has_password ==> next_field(focus, has_password) == 0 && previous_field(
            focus,
            has_password,
        ) == 0,
{
}

} // verus!
