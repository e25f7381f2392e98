//! The detail view of one account: url, username, passwords, created and
//! changed, with one of the five lines selected.
use vstd::prelude::*;
use vstd::view::View as _;

use crate::account_table::key_char;
use crate::key::Key;
use crate::model::{Account, Pwd};
use crate::time::{MAX_DATE_MILLIS, datetime_text, millis2string};

verus! {

/// The number of lines of the view.
pub const VIEW_LINES: usize = 5;

/// What a [`View`] holds, as mathematical values.
pub ghost struct ViewState {
    pub account: Option<Account>,
    pub pwds: Option<Seq<Pwd>>,
    pub masked: bool,
    pub selected: Option<usize>,
    /// Whether the selected line was just copied, which the line marker shows.
    pub marked: bool,
}

/// The text that copying line `line` of the view gives: the url, the
/// username, the current password, or the created or changed time written
/// as a date; nothing where there is no such value.
pub open spec fn copy_text(s: ViewState, line: Option<usize>) -> Option<Seq<char>> {
    match s.account {
        None => None,
        Some(a) => match line {
            Some(0) => Some(a.url@),
            Some(1) => Some(a.username@),
            Some(2) => match s.pwds {
                Some(p) => if p.len() > 0 { Some(p[0].password@) } else { None },
                None => None,
            },
            Some(3) => if a.created <= MAX_DATE_MILLIS { Some(datetime_text(a.created as nat)) } else { None },
            Some(4) => if a.changed <= MAX_DATE_MILLIS { Some(datetime_text(a.changed as nat)) } else { None },
            _ => None,
        },
    }
}

/// The line after `sel` among the five, wrapping to the first.
pub open spec fn line_next(sel: Option<usize>) -> Option<usize> {
    Some(((sel.unwrap_or(0) as int % 5 + 1) % 5) as usize)
}

/// The line before `sel` among the five, wrapping to the last.
pub open spec fn line_prev(sel: Option<usize>) -> Option<usize> {
    Some(((sel.unwrap_or(0) as int % 5 + 4) % 5) as usize)
}

/// The detail view.
pub struct View {
    account: Option<Account>,
    pwds: Option<Vec<Pwd>>,
    is_masked: bool,
    selected: Option<usize>,
    marked: bool,
}

impl vstd::view::View for View {
    type V = ViewState;

    closed spec fn view(&self) -> ViewState {
        ViewState {
            account: self.account,
            pwds: match self.pwds {
                Some(v) => Some(v@),
                None => None,
            },
            masked: self.is_masked,
            selected: self.selected,
            marked: self.marked,
        }
    }
}

impl View {
    /// An empty view with the passwords hidden and the first line selected.
    pub fn new() -> (r: Self)
        ensures
            r@ == (ViewState { account: None, pwds: None, masked: true, selected: Some(0usize), marked: false }),
    {
        View { account: None, pwds: None, is_masked: true, selected: Some(0), marked: false }
    }

    /// Shows an account, with the first line selected.
    pub fn load_account(&mut self, account: Account)
        ensures
            final(self)@ == (ViewState { account: Some(account), selected: Some(0usize), ..old(self)@ }),
    {
        self.account = Some(account);
        self.selected = Some(0);
    }

    /// Shows the password history, the newest first.
    pub fn load_pwds(&mut self, pwds: Vec<Pwd>)
        ensures
            final(self)@ == (ViewState { pwds: Some(pwds@), ..old(self)@ }),
    {
        self.pwds = Some(pwds);
    }

    /// Handles one key and returns the text to put on the clipboard, if any:
    /// j or down and k or up move the selection, c copies the selected line
    /// and marks it, x shows or hides the passwords.
    pub fn on_key_event(&mut self, key: Key) -> (r: Option<String>)
        ensures
            key_char(key) == Some('c') ==> ({
                &&& r matches Some(t) ==> copy_text(old(self)@, old(self)@.selected) == Some(t@)
                &&& r is None ==> copy_text(old(self)@, old(self)@.selected) is None
                &&& final(self)@ == (ViewState {
                    marked: old(self)@.account is Some && old(self)@.selected is Some,
                    ..old(self)@
                })
            }),
            key_char(key) != Some('c') ==> r is None,
            key == Key::Down || key_char(key) == Some('j') ==> final(self)@ == (ViewState {
                selected: line_next(old(self)@.selected),
                marked: false,
                ..old(self)@
            }),
            key == Key::Up || key_char(key) == Some('k') ==> final(self)@ == (ViewState {
                selected: line_prev(old(self)@.selected),
                marked: false,
                ..old(self)@
            }),
            key_char(key) == Some('x') ==> final(self)@ == (ViewState {
                masked: !old(self)@.masked,
                marked: false,
                ..old(self)@
            }),
    {
        self.marked = false;
        match key {
            Key::Down | Key::Char('j') | Key::Ctrl('j') => {
                self.next();
                None
            },
            Key::Up | Key::Char('k') | Key::Ctrl('k') => {
                self.prev();
                None
            },
            Key::Char('c') | Key::Ctrl('c') => self.copy(),
            Key::Char('x') | Key::Ctrl('x') => {
                self.is_masked = !self.is_masked;
                None
            },
            _ => None,
        }
    }

    fn next(&mut self)
        ensures
            final(self)@ == (ViewState { selected: line_next(old(self)@.selected), ..old(self)@ }),
    {
        let cur = match self.selected {
            Some(i) => i,
            None => 0,
        };
        self.selected = Some((cur % VIEW_LINES + 1) % VIEW_LINES);
    }

    fn prev(&mut self)
        ensures
            final(self)@ == (ViewState { selected: line_prev(old(self)@.selected), ..old(self)@ }),
    {
        let cur = match self.selected {
            Some(i) => i,
            None => 0,
        };
        self.selected = Some((cur % VIEW_LINES + VIEW_LINES - 1) % VIEW_LINES);
    }

    fn copy(&mut self) -> (r: Option<String>)
        ensures
            r matches Some(t) ==> copy_text(old(self)@, old(self)@.selected) == Some(t@),
            r is None ==> copy_text(old(self)@, old(self)@.selected) is None,
            final(self)@ == (ViewState { marked: old(self)@.marked || (old(self)@.account is Some && old(self)@.selected is Some), ..old(self)@ }),
    {
        let text = match &self.account {
            None => {
                return None;
            },
            Some(account) => match self.selected {
                Some(0) => Some(account.url.clone()),
                Some(1) => Some(account.username.clone()),
                Some(2) => match &self.pwds {
                    Some(pwds) => if pwds.len() > 0 {
                        Some(pwds[0].password.clone())
                    } else {
                        None
                    },
                    None => None,
                },
                Some(3) => if account.created as u64 <= MAX_DATE_MILLIS {
                    Some(millis2string(account.created as u64))
                } else {
                    None
                },
                Some(4) => if account.changed as u64 <= MAX_DATE_MILLIS {
                    Some(millis2string(account.changed as u64))
                } else {
                    None
                },
                _ => None,
            },
        };
        if self.selected.is_some() {
            self.marked = true;
        }
        text
    }

    pub fn account(&self) -> (r: Option<&Account>)
        ensures
            r == match self@.account {
                Some(a) => Some(&a),
                None => None::<&Account>,
            },
    {
        match &self.account {
            Some(a) => Some(a),
            None => None,
        }
    }

    pub fn pwds(&self) -> (r: Option<&Vec<Pwd>>)
        ensures
            match r {
                Some(v) => self@.pwds == Some(v@),
                None => self@.pwds is None,
            },
    {
        match &self.pwds {
            Some(v) => Some(v),
            None => None,
        }
    }

    pub fn is_masked(&self) -> (r: bool)
        ensures
            r == self@.masked,
    {
        self.is_masked
    }

    pub fn selected(&self) -> (r: Option<usize>)
        ensures
            r == self@.selected,
    {
        self.selected
    }

    pub fn is_marked(&self) -> (r: bool)
        ensures
            r == self@.marked,
    {
        self.marked
    }
}

impl Default for View {
    fn default() -> (r: Self)
        ensures
            r@ == (ViewState { account: None, pwds: None, masked: true, selected: Some(0usize), marked: false }),
    {
        View::new()
    }
}

} // verus!
