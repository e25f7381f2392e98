//! A single-line text input: content edited at a character cursor, an
//! active flag, optional masking, length bounds and a validation message.
use vstd::prelude::*;
use vstd::string::*;

use crate::fmt::{decimal, push_decimal};
use crate::key::Key;
use crate::text::{chars_of, display_width, str_width, string_from, to_string};

verus! {

/// What an [`Input`] holds, as mathematical values.
pub ghost struct InputState {
    pub label: Seq<char>,
    pub content: Seq<char>,
    /// The cursor, as an index of characters in `content`.
    pub pos: nat,
    pub active: bool,
    pub masked: bool,
    pub min: nat,
    pub max: nat,
    pub msg: Seq<char>,
}

/// The bound on the content length that a new input has.
pub const DEFAULT_MAX: usize = 200;

/// The message that a failed validation leaves: the bounds it asked for.
pub open spec fn length_msg(min: nat, max: nat) -> Seq<char> {
    "The length is required be "@ + decimal(min) + "~"@ + decimal(max)
}

/// The cursor one character to the left, stopping at the start.
pub open spec fn moved_left(s: InputState) -> InputState {
    InputState { pos: if s.pos == 0 { 0 } else { (s.pos - 1) as nat }, ..s }
}

/// The cursor one character to the right, stopping at the end.
pub open spec fn moved_right(s: InputState) -> InputState {
    InputState { pos: if s.pos + 1 <= s.content.len() { s.pos + 1 } else { s.content.len() }, ..s }
}

/// `c` entered at the cursor, which then stands after it.
pub open spec fn entered(s: InputState, c: char) -> InputState {
    InputState { content: s.content.insert(s.pos as int, c), pos: s.pos + 1, ..s }
}

/// The character before the cursor removed; nothing at the start.
pub open spec fn deleted(s: InputState) -> InputState {
    if s.pos == 0 {
        s
    } else {
        InputState {
            content: s.content.remove(s.pos - 1),
            pos: (s.pos - 1) as nat,
            ..s
        }
    }
}

/// `t` inserted at the cursor, which then stands after it.
pub open spec fn inserted(s: InputState, t: Seq<char>) -> InputState {
    InputState {
        content: s.content.subrange(0, s.pos as int) + t + s.content.subrange(
            s.pos as int,
            s.content.len() as int,
        ),
        pos: s.pos + t.len(),
        ..s
    }
}

/// The edit that `k` makes to an active input, before the message is cleared.
/// Characters are taken only while the content is shorter than the bound.
pub open spec fn edited(s: InputState, k: Key) -> InputState {
    match k {
        Key::Paste(t) => if s.content.len() < s.max { inserted(s, t@) } else { s },
        Key::Char(c) => if s.content.len() < s.max { entered(s, c) } else { s },
        Key::Ctrl(c) => if s.content.len() < s.max { entered(s, c) } else { s },
        Key::Backspace => deleted(s),
        Key::Left => moved_left(s),
        Key::Right => moved_right(s),
        _ => s,
    }
}

/// An empty, inactive, unmasked input with bounds 0 and `DEFAULT_MAX`.
pub open spec fn is_fresh(s: InputState) -> bool {
    &&& s.label.len() == 0
    &&& s.content.len() == 0
    &&& s.pos == 0
    &&& !s.active
    &&& !s.masked
    &&& s.min == 0
    &&& s.max == DEFAULT_MAX
    &&& s.msg.len() == 0
}

/// Whether the content length lies within the bounds.
pub open spec fn within_bounds(s: InputState) -> bool {
    s.min <= s.content.len() <= s.max
}

/// A single-line text input.
pub struct Input {
    label: String,
    content: String,
    pos: usize,
    is_active: bool,
    is_masked: bool,
    min: usize,
    max: usize,
    msg: String,
}

impl View for Input {
    type V = InputState;

    closed spec fn view(&self) -> InputState {
        InputState {
            label: self.label@,
            content: self.content@,
            pos: self.pos as nat,
            active: self.is_active,
            masked: self.is_masked,
            min: self.min as nat,
            max: self.max as nat,
            msg: self.msg@,
        }
    }
}

impl Input {
    /// The cursor never passes the end of the content.
    #[verifier::type_invariant]
    spec fn inv(&self) -> bool {
        self.pos <= self.content@.len()
    }

    /// An empty, inactive, unmasked input with bounds 0 and `DEFAULT_MAX`.
    pub fn new() -> (r: Self)
        ensures
            is_fresh(r@),
    {
        Input {
            label: String::new(),
            content: String::new(),
            pos: 0,
            is_active: false,
            is_masked: false,
            min: 0,
            max: DEFAULT_MAX,
            msg: String::new(),
        }
    }

    pub fn with_label(self, label: &str) -> (r: Self)
        ensures
            r@ == (InputState { label: label@, ..self@ }),
    {
        proof {
            use_type_invariant(&self);
        }
        Input { label: to_string(label), ..self }
    }

    pub fn with_mask(self) -> (r: Self)
        ensures
            r@ == (InputState { masked: true, ..self@ }),
    {
        proof {
            use_type_invariant(&self);
        }
        Input { is_masked: true, ..self }
    }

    pub fn with_active(self) -> (r: Self)
        ensures
            r@ == (InputState { active: true, ..self@ }),
    {
        let mut s = self;
        s.activate();
        s
    }

    pub fn with_min(self, min: usize) -> (r: Self)
        ensures
            r@ == (InputState { min: min as nat, ..self@ }),
    {
        proof {
            use_type_invariant(&self);
        }
        Input { min, ..self }
    }

    pub fn with_max(self, max: usize) -> (r: Self)
        ensures
            r@ == (InputState { max: max as nat, ..self@ }),
    {
        proof {
            use_type_invariant(&self);
        }
        Input { max, ..self }
    }

    pub fn activate(&mut self)
        ensures
            final(self)@ == (InputState { active: true, ..old(self)@ }),
    {
        proof {
            use_type_invariant(&*self);
        }
        self.is_active = true;
    }

    pub fn deactivate(&mut self)
        ensures
            final(self)@ == (InputState { active: false, ..old(self)@ }),
    {
        proof {
            use_type_invariant(&*self);
        }
        self.is_active = false;
    }

    pub fn is_active(&self) -> (r: bool)
        ensures
            r == self@.active,
    {
        self.is_active
    }

    pub fn content(&self) -> (r: &str)
        ensures
            r@ == self@.content,
    {
        self.content.as_str()
    }

    pub fn label(&self) -> (r: &str)
        ensures
            r@ == self@.label,
    {
        self.label.as_str()
    }

    pub fn msg(&self) -> (r: &str)
        ensures
            r@ == self@.msg,
    {
        self.msg.as_str()
    }

    pub fn is_masked(&self) -> (r: bool)
        ensures
            r == self@.masked,
    {
        self.is_masked
    }

    /// Empties the content and puts the cursor at the start.
    pub fn reset(&mut self)
        ensures
            final(self)@ == (InputState { content: Seq::empty(), pos: 0, ..old(self)@ }),
    {
        proof {
            use_type_invariant(&*self);
        }
        self.pos = 0;
        self.content = String::new();
    }

    /// Applies a key to an active input and then clears the message; an
    /// inactive input ignores every key.
    pub fn on_key_event(&mut self, key: Key)
        ensures
            final(self)@ == if old(self)@.active {
                InputState { msg: Seq::empty(), ..edited(old(self)@, key) }
            } else {
                old(self)@
            },
    {
        proof {
            use_type_invariant(&*self);
        }
        if !self.is_active {
            return;
        }
        let len = self.content.as_str().unicode_len();
        match key {
            Key::Paste(text) => {
                if len < self.max {
                    self.insert_str(text.as_str());
                }
            },
            Key::Char(ch) => {
                if len < self.max {
                    self.enter_char(ch);
                }
            },
            Key::Ctrl(ch) => {
                if len < self.max {
                    self.enter_char(ch);
                }
            },
            Key::Backspace => self.delete_char(),
            Key::Left => self.move_cursor_left(),
            Key::Right => self.move_cursor_right(),
            _ => {},
        }
        self.msg = String::new();
    }

    /// Checks the content length against the bounds: within them the message
    /// is cleared, outside them it states the bounds.
    pub fn validate(&mut self) -> (r: bool)
        ensures
            r == within_bounds(old(self)@),
            final(self)@ == (InputState {
                msg: if r { Seq::empty() } else { length_msg(old(self)@.min, old(self)@.max) },
                ..old(self)@
            }),
    {
        proof {
            use_type_invariant(&*self);
        }
        let len = self.content.as_str().unicode_len();
        if len >= self.min && len <= self.max {
            self.msg = String::new();
            true
        } else {
            let mut m = String::from_str("The length is required be ");
            push_decimal(&mut m, self.min as u64);
            m.append("~");
            push_decimal(&mut m, self.max as u64);
            proof {
                reveal_strlit("The length is required be ");
                reveal_strlit("~");
            }
            self.msg = m;
            false
        }
    }

    pub fn pos(&self) -> (r: usize)
        ensures
            r == self@.pos,
    {
        self.pos
    }

    fn move_cursor_left(&mut self)
        ensures
            final(self)@ == moved_left(old(self)@),
    {
        proof {
            use_type_invariant(&*self);
        }
        let left = self.pos.saturating_sub(1);
        self.pos = self.clamp_cursor(left);
    }

    fn move_cursor_right(&mut self)
        ensures
            final(self)@ == moved_right(old(self)@),
    {
        proof {
            use_type_invariant(&*self);
        }
        let n = self.content.as_str().unicode_len();
        if self.pos < n {
            self.pos = self.pos + 1;
        }
    }

    fn enter_char(&mut self, ch: char)
        ensures
            final(self)@ == entered(old(self)@, ch),
    {
        proof {
            use_type_invariant(&*self);
        }
        let mut cs = chars_of(self.content.as_str());
        cs.insert(self.pos, ch);
        let new_len = cs.len();
        self.content = string_from(cs.as_slice());
        self.pos = self.pos + 1;
    }

    fn delete_char(&mut self)
        ensures
            final(self)@ == deleted(old(self)@),
    {
        proof {
            use_type_invariant(&*self);
        }
        if self.pos != 0 {
            let mut cs = chars_of(self.content.as_str());
            cs.remove(self.pos - 1);
            self.pos = self.pos - 1;
            self.content = string_from(cs.as_slice());
        }
    }

    fn insert_str(&mut self, s: &str)
        ensures
            final(self)@ == inserted(old(self)@, s@),
    {
        proof {
            use_type_invariant(&*self);
        }
        let cs = chars_of(self.content.as_str());
        let ts = chars_of(s);
        let mut out: Vec<char> = Vec::new();
        let mut i: usize = 0;
        while i < self.pos
            invariant
                self.pos <= cs@.len(),
                i <= self.pos,
                out@ == cs@.subrange(0, i as int),
            decreases self.pos - i,
        {
            out.push(cs[i]);
            i = i + 1;
        }
        let mut j: usize = 0;
        while j < ts.len()
            invariant
                j <= ts@.len(),
                self.pos <= cs@.len(),
                out@ == cs@.subrange(0, self.pos as int) + ts@.subrange(0, j as int),
            decreases ts@.len() - j,
        {
            out.push(ts[j]);
            j = j + 1;
        }
        let mut k: usize = self.pos;
        while k < cs.len()
            invariant
                self.pos <= k <= cs@.len(),
                out@ == cs@.subrange(0, self.pos as int) + ts@ + cs@.subrange(
                    self.pos as int,
                    k as int,
                ),
            decreases cs@.len() - k,
        {
            out.push(cs[k]);
            k = k + 1;
        }
        assert(ts@.subrange(0, ts@.len() as int) =~= ts@);
        let new_len = out.len();
        assert(out@.len() == cs@.len() + ts@.len());
        self.content = string_from(out.as_slice());
        self.pos = self.pos + ts.len();
    }

    /// `new_pos`, or the content length where it lies beyond.
    fn clamp_cursor(&self, new_pos: usize) -> (r: usize)
        ensures
            r == if new_pos <= self@.content.len() { new_pos as nat } else { self@.content.len() },
    {
        let n = self.content.as_str().unicode_len();
        if new_pos <= n {
            new_pos
        } else {
            n
        }
    }

    pub fn set_msg(&mut self, msg: &str)
        ensures
            final(self)@ == (InputState { msg: msg@, ..old(self)@ }),
    {
        proof {
            use_type_invariant(&*self);
        }
        self.msg = to_string(msg);
    }

    pub fn toggle_mask(&mut self)
        ensures
            final(self)@ == (InputState { masked: !old(self)@.masked, ..old(self)@ }),
    {
        proof {
            use_type_invariant(&*self);
        }
        self.is_masked = !self.is_masked;
    }

    /// Replaces the content; the cursor is kept where the new content still
    /// reaches it, else put at its end.
    pub fn set_content(&mut self, content: &str)
        ensures
            final(self)@ == (InputState {
                content: content@,
                pos: if old(self)@.pos <= content@.len() { old(self)@.pos } else { content@.len() },
                ..old(self)@
            }),
    {
        proof {
            use_type_invariant(&*self);
        }
        let c = to_string(content);
        let n = c.as_str().unicode_len();
        if self.pos > n {
            self.pos = n;
        }
        self.content = c;
    }

    /// The columns that the label and the content take together, saturating
    /// at the largest `usize`.
    pub fn width(&self) -> (r: usize)
        ensures
            r == if display_width(self@.content) + display_width(self@.label) <= usize::MAX {
                display_width(self@.content) + display_width(self@.label)
            } else {
                usize::MAX as nat
            },
    {
        str_width(self.content.as_str()).saturating_add(str_width(self.label.as_str()))
    }

    /// Where the cursor stands when the label and the content wrap at
    /// `line_width` columns: the column, then the line.
    pub fn cursor_position(&self, line_width: usize) -> (r: (usize, usize))
        requires
            line_width > 0,
        ensures
            ({
                let at = if display_width(self@.label) + self@.pos <= usize::MAX {
                    display_width(self@.label) + self@.pos
                } else {
                    usize::MAX as nat
                };
                r == ((at % line_width as nat) as usize, (at / line_width as nat) as usize)
            }),
    {
        let at = str_width(self.label.as_str()).saturating_add(self.pos);
        (at % line_width, at / line_width)
    }

    /// The number of lines that the label and the content take when they wrap
    /// at `line_width` columns.
    pub fn height(&self, line_width: usize) -> (r: usize)
        requires
            line_width > 0,
        ensures
            ({
                let w = if display_width(self@.content) + display_width(self@.label) <= usize::MAX {
                    display_width(self@.content) + display_width(self@.label)
                } else {
                    usize::MAX as nat
                };
                r == (w + line_width - 1) / (line_width as int)
            }),
    {
        let w = self.width();
        let q = w / line_width;
        if w % line_width == 0 {
            proof {
                assert((w + line_width - 1) / (line_width as int) == q) by (nonlinear_arith)
                    requires w % line_width == 0, line_width > 0, q == w / line_width;
            }
            q
        } else {
            proof {
                vstd::arithmetic::div_mod::lemma_fundamental_div_mod(w as int, line_width as int);
                assert(line_width >= 2);
                assert(q < usize::MAX) by (nonlinear_arith)
                    requires w == line_width * q + w % line_width, line_width >= 2, w <= usize::MAX;
                assert((w + line_width - 1) / (line_width as int) == q + 1) by (nonlinear_arith)
                    requires w % line_width > 0, line_width > 0, q == w / line_width, w % line_width < line_width,
                        w == line_width * q + w % line_width;
            }
            q + 1
        }
    }
}

impl Default for Input {
    fn default() -> (r: Self)
        ensures
            is_fresh(r@),
    {
        Input::new()
    }
}

} // verus!
