//! Two prompts: a yes/no confirmation, and a passphrase typed twice.
use vstd::prelude::*;

use crate::form::{mismatch_msg, str_eq, typed_into, validated};
use crate::input::{Input, InputState, within_bounds};
use crate::key::Key;
use crate::text::to_string;

verus! {

/// A character with ASCII capitals taken to their small letters.
pub open spec fn ascii_fold(c: char) -> u32 {
    if 'A' <= c && c <= 'Z' {
        (c as u32 + 32) as u32
    } else {
        c as u32
    }
}

/// Whether two texts are equal when ASCII capitals are taken as small letters.
pub open spec fn eq_ignore_ascii_case(a: Seq<char>, b: Seq<char>) -> bool {
    a.len() == b.len() && forall|i: int| 0 <= i < a.len() ==> ascii_fold(a[i]) == ascii_fold(b[i])
}

fn fold(c: char) -> (r: u32)
    ensures
        r == ascii_fold(c),
{
    if 'A' <= c && c <= 'Z' {
        c as u32 + 32
    } else {
        c as u32
    }
}

/// Whether `a` and `b` are equal up to ASCII case.
pub fn str_eq_ignore_ascii_case(a: &str, b: &str) -> (r: bool)
    ensures
        r == eq_ignore_ascii_case(a@, b@),
{
    let n = a.unicode_len();
    if n != b.unicode_len() {
        return false;
    }
    let mut i: usize = 0;
    while i < n
        invariant
            n == a@.len(),
            n == b@.len(),
            i <= n,
            forall|j: int| 0 <= j < i ==> ascii_fold(a@[j]) == ascii_fold(b@[j]),
        decreases n - i,
    {
        if fold(a.get_char(i)) != fold(b.get_char(i)) {
            return false;
        }
        i = i + 1;
    }
    true
}

/// A question answered by typing "yes".
pub struct Confirm {
    content: String,
    confirm: Input,
}

impl Confirm {
    /// A prompt with no question text and an active, empty answer field
    /// labelled "Yes/No: ".
    pub fn new() -> (r: Self)
        ensures
            r.question().len() == 0,
            r.answer().label == "Yes/No: "@,
            r.answer().active,
            r.answer().content.len() == 0,
    {
        Confirm { content: String::new(), confirm: Input::new().with_label("Yes/No: ").with_active() }
    }

    pub closed spec fn answer(&self) -> InputState {
        self.confirm@
    }

    pub closed spec fn question(&self) -> Seq<char> {
        self.content@
    }

    pub fn with_content(self, content: &str) -> (r: Self)
        ensures
            r.question() == content@,
            r.answer() == self.answer(),
    {
        Confirm { content: to_string(content), ..self }
    }

    /// The question text.
    pub fn content(&self) -> (r: &str)
        ensures
            r@ == self.question(),
    {
        self.content.as_str()
    }

    /// The answer field.
    pub fn input(&self) -> (r: &Input)
        ensures
            r@ == self.answer(),
    {
        &self.confirm
    }

    /// Whether the answer reads "yes" in any ASCII case; the answer is
    /// emptied either way.
    pub fn confirm(&mut self) -> (r: bool)
        ensures
            r == eq_ignore_ascii_case(old(self).answer().content, "yes"@),
            final(self).answer() == (InputState {
                content: Seq::empty(),
                pos: 0,
                ..old(self).answer()
            }),
            final(self).question() == old(self).question(),
    {
        let res = str_eq_ignore_ascii_case(self.confirm.content(), "yes");
        self.confirm.reset();
        res
    }

    /// Hands a key to the answer field.
    pub fn on_key_event(&mut self, key: Key)
        ensures
            final(self).answer() == typed_into(old(self).answer(), key),
            final(self).question() == old(self).question(),
    {
        self.confirm.on_key_event(key);
    }
}

impl Default for Confirm {
    fn default() -> (r: Self)
        ensures
            r.question().len() == 0,
            r.answer().label == "Yes/No: "@,
            r.answer().active,
            r.answer().content.len() == 0,
    {
        Confirm::new()
    }
}

/// What a [`ConfirmPassword`] holds, as mathematical values.
pub ghost struct ConfirmPasswordState {
    pub title: Seq<char>,
    pub password: InputState,
    pub confirm: InputState,
}

/// The prompt after one key: tab moves the focus between the two fields, and
/// then the key goes to the field that has it.
pub open spec fn confirm_password_step(s: ConfirmPasswordState, k: Key) -> ConfirmPasswordState {
    let t = if k == Key::Tab {
        if s.password.active {
            ConfirmPasswordState {
                password: InputState { active: false, ..s.password },
                confirm: InputState { active: true, ..s.confirm },
                ..s
            }
        } else {
            ConfirmPasswordState {
                password: InputState { active: true, ..s.password },
                confirm: InputState { active: false, ..s.confirm },
                ..s
            }
        }
    } else {
        s
    };
    if t.password.active {
        ConfirmPasswordState { password: typed_into(t.password, k), ..t }
    } else {
        ConfirmPasswordState { confirm: typed_into(t.confirm, k), ..t }
    }
}

/// Whether both fields lie within their bounds and hold the same text.
pub open spec fn confirm_password_valid(s: ConfirmPasswordState) -> bool {
    within_bounds(s.password) && within_bounds(s.confirm) && s.password.content
        == s.confirm.content
}

/// The prompt after a validation: the password is checked first and the
/// confirmation only where it passed; where both pass but differ, the
/// confirmation gets the mismatch message.
pub open spec fn confirm_password_validated(s: ConfirmPasswordState) -> ConfirmPasswordState {
    ConfirmPasswordState {
        password: validated(s.password),
        confirm: if !within_bounds(s.password) {
            s.confirm
        } else if within_bounds(s.confirm) && s.password.content != s.confirm.content {
            InputState { msg: mismatch_msg(), ..s.confirm }
        } else {
            validated(s.confirm)
        },
        ..s
    }
}

/// A passphrase typed twice, each within 8 to 32 characters.
pub struct ConfirmPassword {
    title: String,
    password: Input,
    confirm: Input,
}

impl View for ConfirmPassword {
    type V = ConfirmPasswordState;

    closed spec fn view(&self) -> ConfirmPasswordState {
        ConfirmPasswordState { title: self.title@, password: self.password@, confirm: self.confirm@ }
    }
}

/// The prompt as it is first shown.
pub open spec fn confirm_password_fresh(s: ConfirmPasswordState) -> bool {
    &&& s.title.len() == 0
    &&& s.password.active && !s.confirm.active
    &&& s.password.masked && s.confirm.masked
    &&& s.password.label == "password: "@ && s.confirm.label == "confirm: "@
    &&& s.password.min == 8 && s.password.max == 32
    &&& s.confirm.min == 8 && s.confirm.max == 32
    &&& s.password.content.len() == 0 && s.confirm.content.len() == 0
    &&& s.password.pos == 0 && s.confirm.pos == 0
    &&& s.password.msg.len() == 0 && s.confirm.msg.len() == 0
}

impl ConfirmPassword {
    pub fn new() -> (r: Self)
        ensures
            confirm_password_fresh(r@),
    {
        ConfirmPassword {
            title: String::new(),
            password: Input::new().with_mask().with_label("password: ").with_min(8).with_max(
                32,
            ).with_active(),
            confirm: Input::new().with_mask().with_label("confirm: ").with_min(8).with_max(32),
        }
    }

    pub fn with_title(self, title: &str) -> (r: Self)
        ensures
            r@ == (ConfirmPasswordState { title: title@, ..self@ }),
    {
        ConfirmPassword { title: to_string(title), ..self }
    }

    pub fn on_key_event(&mut self, key: Key)
        ensures
            final(self)@ == confirm_password_step(old(self)@, key),
    {
        match key {
            Key::Tab => {
                if self.password.is_active() {
                    self.password.deactivate();
                    self.confirm.activate();
                } else {
                    self.password.activate();
                    self.confirm.deactivate();
                }
            },
            _ => {},
        }
        if self.password.is_active() {
            self.password.on_key_event(key);
        } else {
            self.confirm.on_key_event(key);
        }
    }

    pub fn validate(&mut self) -> (r: bool)
        ensures
            r == confirm_password_valid(old(self)@),
            final(self)@ == confirm_password_validated(old(self)@),
    {
        if !self.password.validate() || !self.confirm.validate() {
            return false;
        }
        if str_eq(self.password.content(), self.confirm.content()) {
            true
        } else {
            self.confirm.set_msg("Not match");
            false
        }
    }

    /// The passphrase typed first.
    pub fn content(&self) -> (r: &str)
        ensures
            r@ == self@.password.content,
    {
        self.password.content()
    }

    pub fn title(&self) -> (r: &str)
        ensures
            r@ == self@.title,
    {
        self.title.as_str()
    }

    /// The two inputs, the passphrase and its confirmation.
    pub fn inputs(&self) -> (r: (&Input, &Input))
        ensures
            r.0@ == self@.password,
            r.1@ == self@.confirm,
    {
        (&self.password, &self.confirm)
    }
}

impl Default for ConfirmPassword {
    fn default() -> (r: Self)
        ensures
            confirm_password_fresh(r@),
    {
        ConfirmPassword::new()
    }
}

} // verus!
