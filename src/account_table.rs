//! The account list: every account loaded, the ones a query lets through, and
//! a selection among those.
use vstd::prelude::*;
use vstd::arithmetic::div_mod::{lemma_add_mod_noop_right, lemma_mod_add_multiples_vanish, lemma_small_mod};

use crate::input::{Input, InputState};
use crate::key::Key;
use crate::model::Account;
use crate::form::{str_eq, typed_into};
use crate::text::to_string;

verus! {

/// Whether `q` occurs in `s` as a run of consecutive characters.
pub open spec fn contains(s: Seq<char>, q: Seq<char>) -> bool {
    exists|i: int| 0 <= i <= s.len() - q.len() && #[trigger] s.subrange(i, i + q.len()) == q
}

/// Whether a query lets an account through: it occurs in its url or its username.
pub open spec fn account_matches(a: Account, q: Seq<char>) -> bool {
    contains(a.url@, q) || contains(a.username@, q)
}

/// The positions, in order, among the first `n` accounts, of those that `q`
/// lets through.
pub open spec fn visible(accs: Seq<Account>, q: Seq<char>, n: int) -> Seq<usize>
    decreases n,
{
    if n <= 0 {
        Seq::empty()
    } else if account_matches(accs[n - 1], q) {
        visible(accs, q, n - 1).push((n - 1) as usize)
    } else {
        visible(accs, q, n - 1)
    }
}

/// All positions `0..n`, in order.
pub open spec fn all_positions(n: int) -> Seq<usize> {
    Seq::new(n as nat, |i: int| i as usize)
}

/// The first position at or after `from` of an account with id `aid`.
pub open spec fn first_with_id(accs: Seq<Account>, aid: u32, from: int) -> Option<int>
    decreases accs.len() - from,
{
    if from < 0 || from >= accs.len() {
        None
    } else if accs[from].id == aid {
        Some(from)
    } else {
        first_with_id(accs, aid, from + 1)
    }
}

/// The first index at or after `from` at which `s` holds `v`.
pub open spec fn first_index(s: Seq<usize>, v: usize, from: int) -> Option<int>
    decreases s.len() - from,
{
    if from < 0 || from >= s.len() {
        None
    } else if s[from] == v {
        Some(from)
    } else {
        first_index(s, v, from + 1)
    }
}

/// Whether `q` occurs in `s`.
pub fn str_contains(s: &str, q: &str) -> (r: bool)
    ensures
        r == contains(s@, q@),
{
    let n = s.unicode_len();
    let m = q.unicode_len();
    if m > n {
        return false;
    }
    let mut i: usize = 0;
    while i <= n - m
        invariant
            n == s@.len(),
            m == q@.len(),
            m <= n,
            i <= n - m + 1,
            forall|k: int| 0 <= k < i ==> #[trigger] s@.subrange(k, k + m) != q@,
        decreases n - m + 1 - i,
    {
        let mut j: usize = 0;
        let mut same = true;
        while j < m
            invariant
                n == s@.len(),
                m == q@.len(),
                i + m <= n,
                j <= m,
                same == (forall|t: int| 0 <= t < j ==> s@[i + t] == q@[t]),
            decreases m - j,
        {
            if s.get_char(i + j) != q.get_char(j) {
                same = false;
            }
            j = j + 1;
        }
        if same {
            assert(s@.subrange(i as int, i + m) =~= q@);
            return true;
        }
        assert(s@.subrange(i as int, i + m) != q@) by {
            let t = choose|t: int| 0 <= t < m && s@[i + t] != q@[t];
            assert(s@.subrange(i as int, i + m)[t] == s@[i + t]);
        }
        i = i + 1;
    }
    assert(!contains(s@, q@)) by {
        if contains(s@, q@) {
            let k = choose|k: int| 0 <= k <= s@.len() - q@.len() && #[trigger] s@.subrange(k, k + q@.len()) == q@;
            assert(s@.subrange(k, k + m) != q@);
        }
    }
    false
}

/// What an [`AccountVec`] holds, as mathematical values.
pub ghost struct AccountVecState {
    pub accounts: Seq<Account>,
    /// Positions in `accounts` of the accounts that are visible, in order.
    pub filtered: Seq<usize>,
}

/// The accounts and the positions of the visible ones.
pub struct AccountVec {
    accounts: Vec<Account>,
    filtered: Vec<usize>,
}

impl View for AccountVec {
    type V = AccountVecState;

    closed spec fn view(&self) -> AccountVecState {
        AccountVecState { accounts: self.accounts@, filtered: self.filtered@ }
    }
}

fn positions(n: usize) -> (r: Vec<usize>)
    ensures
        r@ == all_positions(n as int),
{
    let mut v: Vec<usize> = Vec::new();
    let mut i: usize = 0;
    while i < n
        invariant
            i <= n,
            v@ == all_positions(i as int),
        decreases n - i,
    {
        v.push(i);
        i = i + 1;
        assert(v@ =~= all_positions(i as int));
    }
    v
}

impl AccountVec {
    /// All the accounts given, all visible.
    pub fn new(accounts: Vec<Account>) -> (r: Self)
        ensures
            r@.accounts == accounts@,
            r@.filtered == all_positions(accounts@.len() as int),
    {
        let len = accounts.len();
        AccountVec { accounts, filtered: positions(len) }
    }

    /// Replaces the accounts; all become visible.
    pub fn load(&mut self, accounts: Vec<Account>)
        ensures
            final(self)@.accounts == accounts@,
            final(self)@.filtered == all_positions(accounts@.len() as int),
    {
        let filtered = positions(accounts.len());
        self.accounts = accounts;
        self.filtered = filtered;
    }

    /// Makes visible exactly the accounts whose url or username holds `query`,
    /// in their order; an empty query lets all through.
    pub fn filter(&mut self, query: &str)
        ensures
            final(self)@.accounts == old(self)@.accounts,
            final(self)@.filtered == visible(
                old(self)@.accounts,
                query@,
                old(self)@.accounts.len() as int,
            ),
    {
        let mut res: Vec<usize> = Vec::new();
        let mut i: usize = 0;
        while i < self.accounts.len()
            invariant
                i <= self.accounts@.len(),
                res@ == visible(self.accounts@, query@, i as int),
            decreases self.accounts@.len() - i,
        {
            let a = &self.accounts[i];
            if str_contains(a.url.as_str(), query) || str_contains(a.username.as_str(), query) {
                res.push(i);
            }
            i = i + 1;
        }
        self.filtered = res;
    }

    /// The `index`-th visible account.
    pub fn get(&self, index: usize) -> (r: Option<&Account>)
        ensures
            r == if index < self@.filtered.len() && self@.filtered[index as int]
                < self@.accounts.len() {
                Some(&self@.accounts[self@.filtered[index as int] as int])
            } else {
                None::<&Account>
            },
    {
        if index < self.filtered.len() {
            let pos = self.filtered[index];
            if pos < self.accounts.len() {
                return Some(&self.accounts[pos]);
            }
        }
        None
    }

    /// Where among the visible accounts the first account with id `aid` stands.
    pub fn index(&self, aid: u32) -> (r: Option<usize>)
        ensures
            r == match first_with_id(self@.accounts, aid, 0) {
                Some(p) => match first_index(self@.filtered, p as usize, 0) {
                    Some(k) => Some(k as usize),
                    None => None,
                },
                None => None,
            },
    {
        let mut p: usize = 0;
        while p < self.accounts.len()
            invariant
                p <= self.accounts@.len(),
                first_with_id(self@.accounts, aid, 0) == first_with_id(self@.accounts, aid, p as int),
            decreases self.accounts@.len() - p,
        {
            if self.accounts[p].id == aid {
                assert(first_with_id(self@.accounts, aid, p as int) == Some(p as int));
                let mut k: usize = 0;
                while k < self.filtered.len()
                    invariant
                        k <= self.filtered@.len(),
                        first_with_id(self@.accounts, aid, 0) == Some(p as int),
                        first_index(self@.filtered, p, 0) == first_index(self@.filtered, p, k as int),
                    decreases self.filtered@.len() - k,
                {
                    if self.filtered[k] == p {
                        assert(first_index(self@.filtered, p, k as int) == Some(k as int));
                        return Some(k);
                    }
                    k = k + 1;
                }
                return None;
            }
            p = p + 1;
        }
        None
    }

    /// The number of visible accounts.
    pub fn visible_len(&self) -> (r: usize)
        ensures
            r == self@.filtered.len(),
    {
        self.filtered.len()
    }

    /// The visible accounts, in order.
    pub fn iter(&self) -> (r: AccountIter<'_>)
        ensures
            r.accounts@ == self@.accounts,
            r.filtered@ == self@.filtered,
            r.curr == 0,
    {
        AccountIter { accounts: self.accounts.as_slice(), filtered: self.filtered.as_slice(), curr: 0 }
    }
}

/// A walk over the visible accounts of an [`AccountVec`].
pub struct AccountIter<'a> {
    pub accounts: &'a [Account],
    pub filtered: &'a [usize],
    pub curr: usize,
}

impl<'a> AccountIter<'a> {
    /// The next visible account, or `None` past the last.
    pub fn next(&mut self) -> (r: Option<&'a Account>)
        ensures
            final(self).accounts == old(self).accounts,
            final(self).filtered == old(self).filtered,
            final(self).curr == if old(self).curr < usize::MAX { (old(self).curr + 1) as usize } else { old(self).curr },
            r == if old(self).curr < old(self).filtered@.len() && old(self).filtered@[old(self).curr as int]
                < old(self).accounts@.len() {
                Some(&old(self).accounts@[old(self).filtered@[old(self).curr as int] as int])
            } else {
                None::<&Account>
            },
    {
        let curr = self.curr;
        if self.curr < usize::MAX {
            self.curr = self.curr + 1;
        }
        if curr < self.filtered.len() {
            let pos = self.filtered[curr];
            if pos < self.accounts.len() {
                return Some(&self.accounts[pos]);
            }
        }
        None
    }
}

/// An empty query lets every account through.
pub proof fn lemma_empty_query_shows_all(accs: Seq<Account>, n: int)
    requires
        0 <= n <= accs.len(),
    ensures
        visible(accs, Seq::empty(), n) == all_positions(n),
    decreases n,
{
    if n > 0 {
        lemma_empty_query_shows_all(accs, n - 1);
        assert(accs[n - 1].url@.subrange(0, 0 + Seq::<char>::empty().len() as int) =~= Seq::<char>::empty());
        assert(account_matches(accs[n - 1], Seq::empty()));
        assert(visible(accs, Seq::empty(), n) =~= all_positions(n));
    } else {
        assert(visible(accs, Seq::empty(), n) =~= all_positions(n));
    }
}

/// The selection after moving down by one among `len` visible rows, wrapping
/// from the last row to the first; nothing moves when no row is visible.
pub open spec fn select_next(sel: Option<usize>, len: nat) -> Option<usize> {
    if len == 0 {
        sel
    } else {
        Some(((sel.unwrap_or(0) + 1) % (len as int)) as usize)
    }
}

/// The selection after moving up by one among `len` visible rows, wrapping
/// from the first row to the last; nothing moves when no row is visible.
pub open spec fn select_prev(sel: Option<usize>, len: nat) -> Option<usize> {
    if len == 0 {
        sel
    } else {
        Some(((sel.unwrap_or(0) + len - 1) % (len as int)) as usize)
    }
}

/// The character of a key pressed with or without the control modifier.
pub open spec fn key_char(k: Key) -> Option<char> {
    match k {
        Key::Char(c) => Some(c),
        Key::Ctrl(c) => Some(c),
        _ => None,
    }
}

/// Moving down from the last visible row selects the first, and moving up
/// from the first selects the last.
pub proof fn lemma_selection_wraps(len: nat)
    requires
        0 < len <= usize::MAX,
    ensures
        select_next(Some((len - 1) as usize), len) == Some(0usize),
        select_prev(Some(0usize), len) == Some((len - 1) as usize),
{
    assert(((len - 1) as usize + 1) % (len as int) == 0) by {
        vstd::arithmetic::div_mod::lemma_mod_self_0(len as int);
    }
    assert((0usize + len - 1) % (len as int) == len - 1) by {
        lemma_small_mod((len - 1) as nat, len);
    }
}

/// What an [`AccountTable`] holds, as mathematical values.
pub ghost struct AccountTableState {
    pub items: AccountVecState,
    pub query: InputState,
    /// The selected row, among the visible ones.
    pub selected: Option<usize>,
    /// The query text that the visible rows were last computed from.
    pub query_content: Seq<char>,
    /// Whether the selection was just taken, which the row marker shows.
    pub marked: bool,
}

/// The account table with its query line.
pub struct AccountTable {
    items: AccountVec,
    query: Input,
    selected: Option<usize>,
    query_content: String,
    marked: bool,
}

impl View for AccountTable {
    type V = AccountTableState;

    closed spec fn view(&self) -> AccountTableState {
        AccountTableState {
            items: self.items@,
            query: self.query@,
            selected: self.selected,
            query_content: self.query_content@,
            marked: self.marked,
        }
    }
}

/// The table after one key. While the query line is active, escape or enter
/// leave it and other keys edit it, and a changed query recomputes the visible
/// rows and selects the first. Otherwise j or down and k or up move the
/// selection, and slash opens the query line.
pub open spec fn table_step(s: AccountTableState, k: Key) -> AccountTableState {
    if s.query.active {
        if k == Key::Esc || k == Key::Enter {
            AccountTableState { query: InputState { active: false, ..s.query }, ..s }
        } else {
            let q = typed_into(s.query, k);
            if q.content != s.query_content {
                AccountTableState {
                    items: AccountVecState {
                        filtered: visible(s.items.accounts, q.content, s.items.accounts.len() as int),
                        ..s.items
                    },
                    query: q,
                    selected: Some(0),
                    query_content: q.content,
                    marked: false,
                }
            } else {
                AccountTableState { query: q, marked: false, ..s }
            }
        }
    } else if k == Key::Down || key_char(k) == Some('j') {
        AccountTableState { selected: select_next(s.selected, s.items.filtered.len()), marked: false, ..s }
    } else if k == Key::Up || key_char(k) == Some('k') {
        AccountTableState { selected: select_prev(s.selected, s.items.filtered.len()), marked: false, ..s }
    } else if key_char(k) == Some('/') {
        AccountTableState { query: InputState { active: true, ..s.query }, marked: false, ..s }
    } else {
        AccountTableState { marked: false, ..s }
    }
}

/// On the table, moving down from the last visible row selects the first,
/// and moving up from the first selects the last.
pub proof fn lemma_table_navigation_wraps(s: AccountTableState)
    requires
        !s.query.active,
        0 < s.items.filtered.len() <= usize::MAX,
    ensures
        s.selected == Some((s.items.filtered.len() - 1) as usize) ==> table_step(s, Key::Down).selected
            == Some(0usize),
        s.selected == Some(0usize) ==> table_step(s, Key::Up).selected == Some(
            (s.items.filtered.len() - 1) as usize,
        ),
{
    lemma_selection_wraps(s.items.filtered.len());
}

/// The visible row of the first account with id `aid`, if it is visible.
pub open spec fn row_of_id(items: AccountVecState, aid: u32) -> Option<usize> {
    match first_with_id(items.accounts, aid, 0) {
        Some(p) => match first_index(items.filtered, p as usize, 0) {
            Some(k) => Some(k as usize),
            None => None,
        },
        None => None,
    }
}

/// The visible account at the selection, if any.
pub open spec fn selected_account(s: AccountTableState) -> Option<Account> {
    match s.selected {
        Some(i) => if i < s.items.filtered.len() && s.items.filtered[i as int] < s.items.accounts.len() {
            Some(s.items.accounts[s.items.filtered[i as int] as int])
        } else {
            None
        },
        None => None,
    }
}

impl AccountTable {
    /// An empty table with the first row selected and an inactive query line
    /// labelled "/".
    pub fn new() -> (r: Self)
        ensures
            r@.items.accounts.len() == 0,
            r@.items.filtered.len() == 0,
            r@.selected == Some(0usize),
            !r@.query.active,
            r@.query.label == "/"@,
            r@.query.content.len() == 0,
            r@.query_content.len() == 0,
            !r@.marked,
    {
        AccountTable {
            items: AccountVec::new(Vec::new()),
            query: Input::new().with_label("/"),
            selected: Some(0),
            query_content: String::new(),
            marked: false,
        }
    }

    pub fn on_key_event(&mut self, key: Key)
        ensures
            final(self)@ == table_step(old(self)@, key),
    {
        if self.query.is_active() {
            match key {
                Key::Esc | Key::Enter => {
                    self.query.deactivate();
                    return;
                },
                _ => {},
            }
            self.query.on_key_event(key);
            if !str_eq(self.query_content.as_str(), self.query.content()) {
                self.items.filter(self.query.content());
                self.selected = Some(0);
                self.query_content = to_string(self.query.content());
            }
        } else {
            match key {
                Key::Down | Key::Char('j') | Key::Ctrl('j') => self.next(),
                Key::Up | Key::Char('k') | Key::Ctrl('k') => self.prev(),
                Key::Char('/') | Key::Ctrl('/') => self.query.activate(),
                _ => {},
            }
        }
        self.marked = false;
    }

    /// Replaces the accounts, all visible, and empties the query line.
    pub fn load(&mut self, accounts: Vec<Account>)
        ensures
            final(self)@ == (AccountTableState {
                items: AccountVecState {
                    accounts: accounts@,
                    filtered: all_positions(accounts@.len() as int),
                },
                query: InputState { content: Seq::empty(), pos: 0, ..old(self)@.query },
                ..old(self)@
            }),
    {
        self.items.load(accounts);
        self.query.reset();
    }

    /// Whether the query line is taking keys.
    pub fn is_querying(&self) -> (r: bool)
        ensures
            r == self@.query.active,
    {
        self.query.is_active()
    }

    fn next(&mut self)
        ensures
            final(self)@ == (AccountTableState {
                selected: select_next(old(self)@.selected, old(self)@.items.filtered.len()),
                ..old(self)@
            }),
    {
        let len = self.items.visible_len();
        if len > 0 {
            let cur = match self.selected {
                Some(i) => i,
                None => 0,
            };
            proof {
                lemma_add_mod_noop_right(1, cur as int, len as int);
            }
            let select = (cur % len + 1) % len;
            self.selected = Some(select);
        }
    }

    fn prev(&mut self)
        ensures
            final(self)@ == (AccountTableState {
                selected: select_prev(old(self)@.selected, old(self)@.items.filtered.len()),
                ..old(self)@
            }),
    {
        let len = self.items.visible_len();
        if len > 0 {
            let cur = match self.selected {
                Some(i) => i,
                None => 0,
            };
            let r = cur % len;
            proof {
                lemma_add_mod_noop_right(len - 1, cur as int, len as int);
                if r == 0 {
                    lemma_small_mod((len - 1) as nat, len as nat);
                } else {
                    lemma_mod_add_multiples_vanish(r - 1, len as int);
                    lemma_small_mod((r - 1) as nat, len as nat);
                }
            }
            let select = if r == 0 {
                len - 1
            } else {
                r - 1
            };
            self.selected = Some(select);
        }
    }

    /// The selected visible account, if any; taking it marks the row.
    pub fn selected(&mut self) -> (r: Option<Account>)
        ensures
            r == selected_account(old(self)@),
            final(self)@ == (AccountTableState {
                marked: old(self)@.marked || old(self)@.selected is Some,
                ..old(self)@
            }),
    {
        match self.selected {
            Some(index) => {
                self.marked = true;
                match self.items.get(index) {
                    Some(a) => Some(a.cloned()),
                    None => None,
                }
            },
            None => None,
        }
    }

    /// Selects the row of the account with id `aid`, or nothing where that
    /// account is not visible.
    pub fn select_by_aid(&mut self, aid: u32)
        ensures
            final(self)@ == (AccountTableState { selected: row_of_id(old(self)@.items, aid), ..old(self)@ }),
    {
        self.selected = self.items.index(aid);
    }

    /// The selected row, among the visible ones.
    pub fn selection(&self) -> (r: Option<usize>)
        ensures
            r == self@.selected,
    {
        self.selected
    }

    pub fn is_marked(&self) -> (r: bool)
        ensures
            r == self@.marked,
    {
        self.marked
    }

    pub fn items(&self) -> (r: &AccountVec)
        ensures
            r@ == self@.items,
    {
        &self.items
    }

    pub fn query(&self) -> (r: &Input)
        ensures
            r@ == self@.query,
    {
        &self.query
    }
}

impl Default for AccountTable {
    fn default() -> (r: Self)
        ensures
            r@.items.accounts.len() == 0,
            r@.selected == Some(0usize),
            !r@.query.active,
    {
        AccountTable::new()
    }
}

} // verus!
