//! Bulk import: the records of a pass export and of a Firefox password CSV
//! turned into stored accounts. Reading the files is left to the caller,
//! which hands over lines and CSV fields.
use vstd::prelude::*;

use crate::error::{TecError, TecResult};
use crate::model::{Account, Pwd};
use crate::repo::{AccountRepo, PwdRepo};
use crate::text::to_string;

verus! {

/// Whether `c` has the Unicode White_Space property (25 code points).
pub open spec fn is_white_space(c: char) -> bool {
    let u = c as u32;
    (0x09 <= u && u <= 0x0D) || u == 0x20 || u == 0x85 || u == 0xA0 || u == 0x1680 || (0x2000 <= u
        && u <= 0x200A) || u == 0x2028 || u == 0x2029 || u == 0x202F || u == 0x205F || u == 0x3000
}

/// The text without its leading white space.
pub open spec fn trim_start(s: Seq<char>) -> Seq<char>
    decreases s.len(),
{
    if s.len() > 0 && is_white_space(s[0]) {
        trim_start(s.drop_first())
    } else {
        s
    }
}

/// The text without its trailing white space.
pub open spec fn trim_end(s: Seq<char>) -> Seq<char>
    decreases s.len(),
{
    if s.len() > 0 && is_white_space(s.last()) {
        trim_end(s.drop_last())
    } else {
        s
    }
}

/// The text with leading and trailing white space removed.
pub open spec fn trimmed(s: Seq<char>) -> Seq<char> {
    trim_end(trim_start(s))
}

/// Relies on `str::trim`: the text without the leading and trailing
/// characters that have the Unicode White_Space property.
#[verifier::external_body]
fn trim_text(s: &str) -> (r: String)
    ensures
        r@ == trimmed(s@),
{
    s.trim().to_string()
}

/// Whether `s` begins with `p`.
pub open spec fn has_prefix(s: Seq<char>, p: Seq<char>) -> bool {
    s.len() >= p.len() && s.subrange(0, p.len() as int) == p
}

/// Whether `s` begins with `p`.
pub fn starts_with(s: &str, p: &str) -> (r: bool)
    ensures
        r == has_prefix(s@, p@),
{
    let n = s.unicode_len();
    let m = p.unicode_len();
    if n < m {
        return false;
    }
    let mut i: usize = 0;
    while i < m
        invariant
            n == s@.len(),
            m == p@.len(),
            m <= n,
            i <= m,
            forall|j: int| 0 <= j < i ==> s@[j] == p@[j],
        decreases m - i,
    {
        if s.get_char(i) != p.get_char(i) {
            return false;
        }
        i = i + 1;
    }
    assert(s@.subrange(0, m as int) =~= p@);
    true
}

/// What follows the first `k` characters of `s`, trimmed.
fn trimmed_tail(s: &str, k: usize) -> (r: String)
    requires
        k <= s@.len(),
    ensures
        r@ == trimmed(s@.subrange(k as int, s@.len() as int)),
{
    let n = s.unicode_len();
    trim_text(s.substring_char(k, n))
}

/// One entry of a pass export: its name line, password line, login and url.
pub struct PassEntry {
    pub name: String,
    pub pwd: String,
    pub login: String,
    pub url: String,
}

impl PassEntry {
    /// The url an entry is stored under: its url, or its name where it has none.
    pub fn account_url(&self) -> (r: &str)
        ensures
            r@ == if self.url@.len() == 0 { self.name@ } else { self.url@ },
    {
        if self.url.as_str().unicode_len() == 0 {
            self.name.as_str()
        } else {
            self.url.as_str()
        }
    }
}

/// What a [`PassParser`] holds, as mathematical values.
pub ghost struct PassState {
    /// The line number within the current entry.
    pub index: nat,
    /// The empty lines seen within the current entry.
    pub ending: nat,
    pub name: Seq<char>,
    pub pwd: Seq<char>,
    pub login: Seq<char>,
    pub url: Seq<char>,
}

/// The value after `prefix` on a line that starts with it, trimmed; else empty.
pub open spec fn field_after(line: Seq<char>, prefix: Seq<char>) -> Seq<char> {
    if has_prefix(line, prefix) {
        trimmed(line.subrange(prefix.len() as int, line.len() as int))
    } else {
        Seq::empty()
    }
}

/// The parser after one line, before an entry is handed out. The first line
/// of an entry names it ("Name: "), the second holds the password, the third
/// the login ("login: ") and the fourth the url ("url: ").
pub open spec fn pass_fields(s: PassState, line: Seq<char>) -> PassState {
    PassState {
        name: if s.index == 0 && has_prefix(line, "Name: "@) {
            trimmed(line.subrange(6, line.len() as int))
        } else {
            s.name
        },
        pwd: if s.index == 1 { trimmed(line) } else { s.pwd },
        login: if s.index == 2 { field_after(line, "login: "@) } else { s.login },
        url: if s.index == 3 { field_after(line, "url: "@) } else { s.url },
        index: if s.index < usize::MAX { s.index + 1 } else { s.index },
        ending: if line.len() == 0 { s.ending + 1 } else { s.ending },
    }
}

/// Reads a pass export line by line; the second empty line within an entry
/// ends it.
pub struct PassParser {
    index: usize,
    ending: usize,
    name: String,
    pwd: String,
    login: String,
    url: String,
}

impl View for PassParser {
    type V = PassState;

    closed spec fn view(&self) -> PassState {
        PassState {
            index: self.index as nat,
            ending: self.ending as nat,
            name: self.name@,
            pwd: self.pwd@,
            login: self.login@,
            url: self.url@,
        }
    }
}

impl PassParser {
    /// An entry ends at its second empty line.
    #[verifier::type_invariant]
    spec fn inv(&self) -> bool {
        self.ending < 2
    }

    pub fn new() -> (r: Self)
        ensures
            r@ == (PassState {
                index: 0,
                ending: 0,
                name: Seq::empty(),
                pwd: Seq::empty(),
                login: Seq::empty(),
                url: Seq::empty(),
            }),
    {
        PassParser {
            index: 0,
            ending: 0,
            name: String::new(),
            pwd: String::new(),
            login: String::new(),
            url: String::new(),
        }
    }

    /// Takes one line and hands out the entry that it completes, if any;
    /// after an entry the parser starts the next one, keeping the fields
    /// that the next entry does not set.
    pub fn feed(&mut self, line: &str) -> (r: Option<PassEntry>)
        ensures
            ({
                let t = pass_fields(old(self)@, line@);
                if t.ending == 2 {
                    &&& r matches Some(e) && e.name@ == t.name && e.pwd@ == t.pwd && e.login@ == t.login
                        && e.url@ == t.url
                    &&& final(self)@ == (PassState { index: 0, ending: 0, ..t })
                } else {
                    r is None && final(self)@ == t
                }
            }),
    {
        proof {
            use_type_invariant(&*self);
        }
        if self.index == 0 && starts_with(line, "Name: ") {
            proof {
                reveal_strlit("Name: ");
            }
            self.name = trimmed_tail(line, 6);
        }
        if self.index == 1 {
            self.pwd = trim_text(line);
        }
        if self.index == 2 {
            if starts_with(line, "login: ") {
                proof {
                    reveal_strlit("login: ");
                }
                self.login = trimmed_tail(line, 7);
            } else {
                self.login = String::new();
            }
        }
        if self.index == 3 {
            if starts_with(line, "url: ") {
                proof {
                    reveal_strlit("url: ");
                }
                self.url = trimmed_tail(line, 5);
            } else {
                self.url = String::new();
            }
        }
        self.index = self.index.saturating_add(1);
        if line.unicode_len() == 0 {
            if self.ending == 1 {
                self.ending = 0;
                self.index = 0;
                return Some(
                    PassEntry {
                        name: self.name.clone(),
                        pwd: self.pwd.clone(),
                        login: self.login.clone(),
                        url: self.url.clone(),
                    },
                );
            }
            self.ending = 1;
        }
        None
    }
}

/// Stores one imported entry: an account under its url (its name where it
/// has none) and login, created and changed at `now`, and its password.
pub fn add_account(accounts: &AccountRepo, pwds: &PwdRepo, entry: &PassEntry, now: usize) -> (r: TecResult<u32>)
    requires
        accounts.wf(),
        pwds.wf(),
{
    let aid = accounts.add(
        &Account {
            id: 0,
            url: to_string(entry.account_url()),
            username: entry.login.clone(),
            created: now,
            changed: now,
        },
    )?;
    pwds.add(&Pwd { id: 0, aid, password: entry.pwd.clone(), created: now })?;
    Ok(aid)
}

/// The value of a decimal numeral with an optional leading plus sign, as
/// `str::parse::<usize>` reads it.
pub open spec fn numeral_value(s: Seq<char>) -> Option<nat> {
    let digits = numeral_digits(s);
    if digits.len() > 0 && all_digits(digits) {
        Some(digits_value(digits))
    } else {
        None
    }
}

/// A numeral without its leading plus sign, if it has one.
pub open spec fn numeral_digits(s: Seq<char>) -> Seq<char> {
    if s.len() > 0 && s[0] == '+' { s.subrange(1, s.len() as int) } else { s }
}

/// Whether every character is a decimal digit.
pub open spec fn all_digits(d: Seq<char>) -> bool {
    forall|i: int| 0 <= i < d.len() ==> '0' <= #[trigger] d[i] && d[i] <= '9'
}

/// The value of a run of decimal digits.
pub open spec fn digits_value(d: Seq<char>) -> nat
    decreases d.len(),
{
    if d.len() == 0 {
        0
    } else {
        digits_value(d.drop_last()) * 10 + (d.last() as nat - '0' as nat) as nat
    }
}

/// Reads a decimal numeral; `None` where it is no numeral or exceeds `usize`.
pub fn parse_usize(s: &str) -> (r: Option<usize>)
    ensures
        match numeral_value(s@) {
            Some(v) => if v <= usize::MAX { r == Some(v as usize) } else { r is None },
            None => r is None,
        },
{
    let n = s.unicode_len();
    let mut start: usize = 0;
    if n > 0 && s.get_char(0) == '+' {
        start = 1;
    }
    let ghost digits = s@.subrange(start as int, n as int);
    assert(digits =~= numeral_digits(s@));
    if start == n {
        return None;
    }
    let mut value: usize = 0;
    let mut i: usize = start;
    let mut overflow = false;
    while i < n
        invariant
            n == s@.len(),
            start <= i <= n,
            digits == s@.subrange(start as int, n as int),
            digits == numeral_digits(s@),
            forall|j: int| start <= j < i ==> '0' <= #[trigger] s@[j] && s@[j] <= '9',
            !overflow ==> value == digits_value(s@.subrange(start as int, i as int)),
            overflow ==> digits_value(s@.subrange(start as int, i as int)) > usize::MAX,
        decreases n - i,
    {
        let c = s.get_char(i);
        if !('0' <= c && c <= '9') {
            assert(digits[i - start] == c);
            assert(!('0' <= digits[i - start] && digits[i - start] <= '9'));
            return None;
        }
        let d = (c as u32 - '0' as u32) as usize;
        let ghost pre = s@.subrange(start as int, i as int);
        let ghost next = s@.subrange(start as int, i + 1);
        assert(next.drop_last() =~= pre);
        if overflow {
            assert(digits_value(next) >= digits_value(pre) * 10) by (nonlinear_arith)
                requires digits_value(next) == digits_value(pre) * 10 + (c as nat - '0' as nat) as nat;
        } else if value > (usize::MAX - d) / 10 {
            overflow = true;
            assert(digits_value(next) > usize::MAX) by (nonlinear_arith)
                requires
                    digits_value(next) == value * 10 + d,
                    value > (usize::MAX - d) / 10,
                    d <= 9;
        } else {
            assert(value * 10 + d <= usize::MAX) by (nonlinear_arith)
                requires value <= (usize::MAX - d) / 10, d <= 9;
            value = value * 10 + d;
        }
        i = i + 1;
    }
    assert(s@.subrange(start as int, n as int) =~= digits);
    assert forall|k: int| 0 <= k < digits.len() implies '0' <= #[trigger] digits[k] && digits[k] <= '9' by {
        assert(digits[k] == s@[start + k]);
    }
    if overflow {
        None
    } else {
        Some(value)
    }
}

/// Stores one record of a Firefox password CSV: url, username, password,
/// four fields that are not kept, the creation time, one more field not kept,
/// and the time the password last changed, in milliseconds.
pub fn import_firefox_record(accounts: &AccountRepo, pwds: &PwdRepo, record: &Vec<String>) -> (r: TecResult<u32>)
    requires
        accounts.wf(),
        pwds.wf(),
    ensures
        record@.len() < 9 ==> r is Err,
        record@.len() >= 9 && (numeral_value(record@[6]@) is None || numeral_value(record@[8]@) is None)
            ==> r is Err,
{
    if record.len() < 9 {
        return Err(TecError::InvalidInput);
    }
    let created = match parse_usize(record[6].as_str()) {
        Some(v) => v,
        None => return Err(TecError::ParseIntError),
    };
    let changed = match parse_usize(record[8].as_str()) {
        Some(v) => v,
        None => return Err(TecError::ParseIntError),
    };
    let aid = accounts.add(
        &Account {
            id: 0,
            url: record[0].clone(),
            username: record[1].clone(),
            created,
            changed,
        },
    )?;
    pwds.add(&Pwd { id: 0, aid, password: record[2].clone(), created })?;
    Ok(aid)
}

} // verus!
