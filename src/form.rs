//! The account form: url, username, password and its confirmation, one of
//! them focused at a time.
use vstd::prelude::*;

use crate::input::{Input, InputState, edited, within_bounds, length_msg};
use crate::key::Key;
use crate::model::{Account, Pwd};

verus! {

/// The field of the form that has the focus.
#[derive(Clone, Copy, Debug, PartialEq, Eq, Structural)]
pub enum FormMode {
    Url,
    Username,
    Password,
    Confirm,
}

/// The position of a field in the cycle url, username, password, confirm.
pub open spec fn mode_index(m: FormMode) -> int {
    match m {
        FormMode::Url => 0,
        FormMode::Username => 1,
        FormMode::Password => 2,
        FormMode::Confirm => 3,
    }
}

impl FormMode {
    /// The next field, wrapping from the last to the first.
    pub fn next(self) -> (r: FormMode)
        ensures
            mode_index(r) == (mode_index(self) + 1) % 4,
    {
        match self {
            FormMode::Url => FormMode::Username,
            FormMode::Username => FormMode::Password,
            FormMode::Password => FormMode::Confirm,
            FormMode::Confirm => FormMode::Url,
        }
    }

    /// The previous field, wrapping from the first to the last.
    pub fn prev(self) -> (r: FormMode)
        ensures
            mode_index(r) == (mode_index(self) + 3) % 4,
    {
        match self {
            FormMode::Url => FormMode::Confirm,
            FormMode::Username => FormMode::Url,
            FormMode::Password => FormMode::Username,
            FormMode::Confirm => FormMode::Password,
        }
    }
}

/// What a [`Form`] holds, as mathematical values.
pub ghost struct FormState {
    pub mode: FormMode,
    pub url: InputState,
    pub username: InputState,
    pub password: InputState,
    pub confirm: InputState,
}

/// The message that a failed comparison of password and confirmation leaves.
pub open spec fn mismatch_msg() -> Seq<char> {
    "Not match"@
}

/// `s` after a validation: the message cleared within the bounds, else
/// stating them.
pub open spec fn validated(s: InputState) -> InputState {
    InputState {
        msg: if within_bounds(s) { Seq::empty() } else { length_msg(s.min, s.max) },
        ..s
    }
}

/// The state after moving the focus to `m`: only that field is active.
pub open spec fn focused(s: FormState, m: FormMode) -> FormState {
    FormState {
        mode: m,
        url: InputState { active: m == FormMode::Url, ..s.url },
        username: InputState { active: m == FormMode::Username, ..s.username },
        password: InputState { active: m == FormMode::Password, ..s.password },
        confirm: InputState { active: m == FormMode::Confirm, ..s.confirm },
    }
}

/// A cursor kept where a text of length `len` still reaches it, else put
/// at its end.
pub open spec fn clamped(pos: nat, len: nat) -> nat {
    if pos <= len { pos } else { len }
}

/// The input that a key reaches when the focused field `m` handles it.
pub open spec fn typed_into(s: InputState, k: Key) -> InputState {
    if s.active {
        InputState { msg: Seq::empty(), ..edited(s, k) }
    } else {
        s
    }
}

/// Whether `k` moves the focus forward.
pub open spec fn is_next_key(k: Key) -> bool {
    k == Key::Ctrl('j') || k == Key::Down || k == Key::Tab
}

/// Whether `k` moves the focus back.
pub open spec fn is_prev_key(k: Key) -> bool {
    k == Key::Ctrl('k') || k == Key::Up
}

/// The form after a key that neither moves the focus nor toggles masking.
pub open spec fn form_typed(s: FormState, k: Key) -> FormState {
    match s.mode {
        FormMode::Url => FormState { url: typed_into(s.url, k), ..s },
        FormMode::Username => FormState { username: typed_into(s.username, k), ..s },
        FormMode::Password => FormState { password: typed_into(s.password, k), ..s },
        FormMode::Confirm => FormState { confirm: typed_into(s.confirm, k), ..s },
    }
}

/// The form after one key.
pub open spec fn form_step(s: FormState, k: Key) -> FormState {
    if k == Key::Ctrl('x') {
        FormState {
            password: InputState { masked: !s.password.masked, ..s.password },
            confirm: InputState { masked: !s.confirm.masked, ..s.confirm },
            ..s
        }
    } else if is_next_key(k) {
        focused(s, s.mode.next_spec())
    } else if is_prev_key(k) {
        focused(s, s.mode.prev_spec())
    } else {
        form_typed(s, k)
    }
}

impl FormMode {
    pub open spec fn next_spec(self) -> FormMode {
        match self {
            FormMode::Url => FormMode::Username,
            FormMode::Username => FormMode::Password,
            FormMode::Password => FormMode::Confirm,
            FormMode::Confirm => FormMode::Url,
        }
    }

    pub open spec fn prev_spec(self) -> FormMode {
        match self {
            FormMode::Url => FormMode::Confirm,
            FormMode::Username => FormMode::Url,
            FormMode::Password => FormMode::Username,
            FormMode::Confirm => FormMode::Password,
        }
    }
}

/// Whether all four fields lie within their bounds and the password equals
/// its confirmation.
pub open spec fn form_valid(s: FormState) -> bool {
    &&& within_bounds(s.url)
    &&& within_bounds(s.username)
    &&& within_bounds(s.password)
    &&& within_bounds(s.confirm)
    &&& s.password.content == s.confirm.content
}

/// The form after a validation. The fields are checked in order and the
/// check stops at the first that fails; where all pass but the password and
/// its confirmation differ, the confirmation alone gets the mismatch message.
pub open spec fn form_validated(s: FormState) -> FormState {
    let url = validated(s.url);
    let username = if within_bounds(s.url) { validated(s.username) } else { s.username };
    let password = if within_bounds(s.url) && within_bounds(s.username) {
        validated(s.password)
    } else {
        s.password
    };
    let confirm = if within_bounds(s.url) && within_bounds(s.username) && within_bounds(
        s.password,
    ) {
        if within_bounds(s.confirm) && s.password.content != s.confirm.content {
            InputState { msg: mismatch_msg(), ..s.confirm }
        } else {
            validated(s.confirm)
        }
    } else {
        s.confirm
    };
    FormState { url, username, password, confirm, ..s }
}

/// The form as it is when opened for a new account.
pub open spec fn form_fresh(s: FormState) -> bool {
    &&& s.mode == FormMode::Url
    &&& s.url.active && !s.username.active && !s.password.active && !s.confirm.active
    &&& s.url.label == "url: "@ && s.username.label == "username: "@
    &&& s.password.label == "password: "@ && s.confirm.label == "confirm: "@
    &&& s.url.min == 1 && s.url.max == 200
    &&& s.username.min == 1 && s.username.max == 200
    &&& s.password.min == 8 && s.password.max == 32
    &&& s.confirm.min == 8 && s.confirm.max == 32
    &&& !s.url.masked && !s.username.masked && s.password.masked && s.confirm.masked
    &&& s.url.content.len() == 0 && s.username.content.len() == 0
    &&& s.password.content.len() == 0 && s.confirm.content.len() == 0
    &&& s.url.pos == 0 && s.username.pos == 0 && s.password.pos == 0 && s.confirm.pos == 0
    &&& s.url.msg.len() == 0 && s.username.msg.len() == 0
    &&& s.password.msg.len() == 0 && s.confirm.msg.len() == 0
}

/// The account form.
pub struct Form {
    mode: FormMode,
    url: Input,
    username: Input,
    password: Input,
    confirm: Input,
}

impl View for Form {
    type V = FormState;

    closed spec fn view(&self) -> FormState {
        FormState {
            mode: self.mode,
            url: self.url@,
            username: self.username@,
            password: self.password@,
            confirm: self.confirm@,
        }
    }
}

impl Default for Form {
    fn default() -> (r: Self)
        ensures
            form_fresh(r@),
    {
        Form::new()
    }
}

impl Form {
    /// An empty form with the focus on the url.
    pub fn new() -> (r: Self)
        ensures
            form_fresh(r@),
    {
        let r = Form {
            mode: FormMode::Url,
            url: Input::new().with_label("url: ").with_min(1).with_active(),
            username: Input::new().with_label("username: ").with_min(1),
            password: Input::new().with_mask().with_label("password: ").with_min(8).with_max(32),
            confirm: Input::new().with_mask().with_label("confirm: ").with_min(8).with_max(32),
        };
        r
    }

    /// Handles one key: control-x shows or hides both passwords, control-j,
    /// down and tab move the focus forward, control-k and up move it back,
    /// and any other key goes to the focused field.
    pub fn on_key_event(&mut self, key: Key)
        ensures
            final(self)@ == form_step(old(self)@, key),
    {
        match key {
            Key::Ctrl('x') => {
                self.password.toggle_mask();
                self.confirm.toggle_mask();
            },
            Key::Ctrl('j') | Key::Down | Key::Tab => self.next_mode(),
            Key::Ctrl('k') | Key::Up => self.prev_mode(),
            _ => match self.mode {
                FormMode::Url => self.url.on_key_event(key),
                FormMode::Username => self.username.on_key_event(key),
                FormMode::Password => self.password.on_key_event(key),
                FormMode::Confirm => self.confirm.on_key_event(key),
            },
        }
    }

    fn deactivate_all(&mut self)
        ensures
            final(self)@ == (FormState {
                url: InputState { active: false, ..old(self)@.url },
                username: InputState { active: false, ..old(self)@.username },
                password: InputState { active: false, ..old(self)@.password },
                confirm: InputState { active: false, ..old(self)@.confirm },
                ..old(self)@
            }),
    {
        self.url.deactivate();
        self.username.deactivate();
        self.password.deactivate();
        self.confirm.deactivate();
    }

    fn switch_inputs(&mut self)
        ensures
            final(self)@ == focused(old(self)@, old(self)@.mode),
    {
        self.deactivate_all();
        match self.mode {
            FormMode::Url => self.url.activate(),
            FormMode::Username => self.username.activate(),
            FormMode::Password => self.password.activate(),
            FormMode::Confirm => self.confirm.activate(),
        }
    }

    fn prev_mode(&mut self)
        ensures
            final(self)@ == focused(old(self)@, old(self)@.mode.prev_spec()),
    {
        self.mode = self.mode.prev();
        self.switch_inputs();
    }

    fn next_mode(&mut self)
        ensures
            final(self)@ == focused(old(self)@, old(self)@.mode.next_spec()),
    {
        self.mode = self.mode.next();
        self.switch_inputs();
    }

    /// Checks each field's bounds, in order, and then that the password
    /// equals its confirmation.
    pub fn validate(&mut self) -> (r: bool)
        ensures
            r == form_valid(old(self)@),
            final(self)@ == form_validated(old(self)@),
    {
        if self.url.validate() && self.username.validate() && self.password.validate()
            && self.confirm.validate() {
            if str_eq(self.password.content(), self.confirm.content()) {
                true
            } else {
                self.confirm.set_msg("Not match");
                false
            }
        } else {
            false
        }
    }

    pub fn url(&self) -> (r: &str)
        ensures
            r@ == self@.url.content,
    {
        self.url.content()
    }

    pub fn username(&self) -> (r: &str)
        ensures
            r@ == self@.username.content,
    {
        self.username.content()
    }

    pub fn password(&self) -> (r: &str)
        ensures
            r@ == self@.password.content,
    {
        self.password.content()
    }

    /// The field that has the focus.
    pub fn mode(&self) -> (r: FormMode)
        ensures
            r == self@.mode,
    {
        self.mode
    }

    /// The four inputs, in the order url, username, password, confirm.
    pub fn inputs(&self) -> (r: (&Input, &Input, &Input, &Input))
        ensures
            r.0@ == self@.url,
            r.1@ == self@.username,
            r.2@ == self@.password,
            r.3@ == self@.confirm,
    {
        (&self.url, &self.username, &self.password, &self.confirm)
    }

    /// Empties all four fields.
    pub fn reset(&mut self)
        ensures
            final(self)@ == (FormState {
                url: InputState { content: Seq::empty(), pos: 0, ..old(self)@.url },
                username: InputState { content: Seq::empty(), pos: 0, ..old(self)@.username },
                password: InputState { content: Seq::empty(), pos: 0, ..old(self)@.password },
                confirm: InputState { content: Seq::empty(), pos: 0, ..old(self)@.confirm },
                ..old(self)@
            }),
    {
        self.url.reset();
        self.username.reset();
        self.password.reset();
        self.confirm.reset();
    }

    /// Fills the form from an account and its current password, if any; the
    /// confirmation is left empty.
    pub fn load_account(&mut self, a: &Account, pwd: Option<&Pwd>)
        ensures
            final(self)@ == (FormState {
                url: InputState {
                    content: a.url@,
                    pos: clamped(old(self)@.url.pos, a.url@.len()),
                    ..old(self)@.url
                },
                username: InputState {
                    content: a.username@,
                    pos: clamped(old(self)@.username.pos, a.username@.len()),
                    ..old(self)@.username
                },
                password: InputState {
                    content: match pwd {
                        Some(p) => p.password@,
                        None => Seq::empty(),
                    },
                    pos: 0,
                    ..old(self)@.password
                },
                confirm: InputState { content: Seq::empty(), pos: 0, ..old(self)@.confirm },
                ..old(self)@
            }),
    {
        self.url.set_content(a.url());
        self.username.set_content(a.username());
        self.password.reset();
        self.confirm.reset();
        match pwd {
            Some(p) => self.password.set_content(p.password.as_str()),
            None => {},
        }
    }
}

/// Whether two strings hold the same characters.
pub fn str_eq(a: &str, b: &str) -> (r: bool)
    ensures
        r == (a@ == b@),
{
    let n = a.unicode_len();
    if n != b.unicode_len() {
        return false;
    }
    let mut i: usize = 0;
    while i < n
        invariant
            n == a@.len(),
            n == b@.len(),
            i <= n,
            forall|j: int| 0 <= j < i ==> a@[j] == b@[j],
        decreases n - i,
    {
        if a.get_char(i) != b.get_char(i) {
            return false;
        }
        i = i + 1;
    }
    assert(a@ =~= b@);
    true
}

} // verus!
