//! The session: the account table and the modal widgets over it, with every
//! change stored through the encrypted repositories.
use vstd::prelude::*;
use vstd::view::View as _;

use rusqlite::Connection;

use crate::account_table::{AccountTable, AccountTableState, all_positions, key_char, row_of_id, selected_account, table_step};
use crate::cipher::AesCipher;
use crate::confirm::{Confirm, eq_ignore_ascii_case};
use crate::error::TecResult;
use crate::form::{Form, FormState, form_step, form_valid, form_validated, typed_into};
use crate::input::InputState;
use crate::key::Key;
use crate::model::{Account, Pwd};
use crate::repo::{AccountRepo, PwdRepo, newest_first, sqlite_conn};
use crate::text::to_string;
use crate::time::current_millis;
use crate::view::{View, ViewState};

verus! {

/// The five modes of the session; the table is the hub the others return to.
#[derive(Clone, Copy, Debug, PartialEq, Eq, Structural)]
pub enum AppMode {
    Table,
    View,
    Add,
    Del,
    Edit,
}

/// The help line shown in each mode.
pub open spec fn help_for(mode: AppMode) -> Seq<char> {
    match mode {
        AppMode::Table => "/: filter, a: add, e: edit, d: delete, c: copy password, j: next, k: prev, l/enter: view, ctrl-c: quit"@,
        AppMode::View => "View Account - c: copy, j: next, k: prev, x: show/hide passwords, q/esc: back"@,
        AppMode::Add => "Add Account - down/ctrl-j: next, up/ctrl-k: prev, ctrl-x: show/hide passwords, ctrl-v: paste, esc: back"@,
        AppMode::Del => "Delete Account - esc: back"@,
        AppMode::Edit => "Edit Account - ctrl-j: next, ctrl-k: prev, ctrl-x: show/hide passwords, ctrl-v: paste, esc: back"@,
    }
}

/// The form emptied, as opening it for a new account leaves it.
pub open spec fn form_emptied(s: FormState) -> FormState {
    FormState {
        url: InputState { content: Seq::empty(), pos: 0, ..s.url },
        username: InputState { content: Seq::empty(), pos: 0, ..s.username },
        password: InputState { content: Seq::empty(), pos: 0, ..s.password },
        confirm: InputState { content: Seq::empty(), pos: 0, ..s.confirm },
        ..s
    }
}

/// A request that the session hands to storage, as it hands it over.
pub ghost enum StorageRequest {
    AddAccount { url: Seq<char>, username: Seq<char>, created: usize, changed: usize },
    UpdateAccount { id: u32, url: Seq<char>, username: Seq<char>, changed: usize },
    DeleteAccount { id: u32 },
    AddPwd { aid: u32, password: Seq<char>, created: usize },
    DeletePwds { aid: u32 },
    ReadPwds { aid: u32 },
}

/// What saving a new account from the form hands to storage: the account,
/// created and changed at `t`, then its password under the id it got.
pub open spec fn add_requests(f: FormState, aid: u32, t: usize) -> Seq<StorageRequest> {
    seq![
        StorageRequest::AddAccount {
            url: f.url.content,
            username: f.username.content,
            created: t,
            changed: t,
        },
        StorageRequest::AddPwd { aid, password: f.password.content, created: t },
    ]
}

/// What saving the form over account `id` hands to storage: the new url,
/// username and change time, then the new password appended to its history.
pub open spec fn edit_requests(f: FormState, id: u32, t: usize) -> Seq<StorageRequest> {
    seq![
        StorageRequest::UpdateAccount {
            id,
            url: f.url.content,
            username: f.username.content,
            changed: t,
        },
        StorageRequest::AddPwd { aid: id, password: f.password.content, created: t },
    ]
}

/// What deleting account `id` hands to storage: the account, then its history.
pub open spec fn delete_requests(id: u32) -> Seq<StorageRequest> {
    seq![StorageRequest::DeleteAccount { id }, StorageRequest::DeletePwds { aid: id }]
}

/// The account that the form describes, with id `id`, created and changed at `now`.
pub fn account_from_form(form: &Form, id: u32, now: usize) -> (r: Account)
    ensures
        r.id == id,
        r.url@ == form@.url.content,
        r.username@ == form@.username.content,
        r.created == now,
        r.changed == now,
{
    Account { id, url: to_string(form.url()), username: to_string(form.username()), created: now, changed: now }
}

/// The password entry that the form describes, for account `aid`, created at `now`.
pub fn pwd_from_form(form: &Form, aid: u32, now: usize) -> (r: Pwd)
    ensures
        r.id == 0,
        r.aid == aid,
        r.password@ == form@.password.content,
        r.created == now,
{
    Pwd { id: 0, aid, password: to_string(form.password()), created: now }
}

/// The session.
pub struct App {
    mode: AppMode,
    conn: Connection,
    cipher: AesCipher,
    quiting: bool,
    help_text: String,
    account_table: AccountTable,
    view: View,
    form: Form,
    to_del: Confirm,
    requests: Ghost<Seq<StorageRequest>>,
}

/// Whether `b` is `a` with its widgets and the storage requests as they were.
pub open spec fn widgets_kept(a: App, b: App) -> bool {
    &&& b.form_state() == a.form_state()
    &&& b.table() == a.table()
    &&& b.view_state() == a.view_state()
    &&& b.confirm_answer() == a.confirm_answer()
    &&& b.requests() == a.requests()
}

/// The table mode after `key`, from `a` to `b` with result `r`.
pub open spec fn table_post(a: App, b: App, key: Key, r: TecResult<Option<String>>) -> bool {
    let querying = a.table().query.active;
    let open_key = key == Key::Enter || key_char(key) == Some('l');
    &&& b.confirm_answer() == a.confirm_answer()
    &&& querying ==> (r matches Ok(None)) && b.mode_spec() == AppMode::Table
        && b.table() == table_step(a.table(), key) && b.form_state() == a.form_state()
        && b.view_state() == a.view_state() && b.requests() == a.requests()
    &&& !querying && key_char(key) == Some('a') ==> (r matches Ok(None)) && b.mode_spec() == AppMode::Add
        && b.form_state() == form_emptied(a.form_state()) && b.table() == table_step(a.table(), key)
        && b.requests() == a.requests()
    &&& !querying && key_char(key) == Some('d') ==> (r matches Ok(None)) && b.mode_spec() == AppMode::Del
        && b.table() == table_step(a.table(), key) && b.requests() == a.requests()
    &&& !querying && open_key && selected_account(a.table()) is None ==> (r matches Ok(None))
        && b.mode_spec() == AppMode::Table && b.view_state() == a.view_state()
        && b.form_state() == a.form_state() && b.requests() == a.requests()
    &&& !querying && open_key && selected_account(a.table()) is Some && r is Ok ==> {
        let acc = selected_account(a.table())->0;
        &&& (r matches Ok(None))
        &&& b.mode_spec() == AppMode::View
        &&& b.view_state().account == Some(acc)
        &&& b.view_state().selected == Some(0usize)
        &&& b.view_state().pwds matches Some(p) && newest_first(p)
        &&& b.requests() == a.requests().push(StorageRequest::ReadPwds { aid: acc.id })
    }
    &&& !querying && key_char(key) == Some('e') && selected_account(a.table()) is None ==> (r matches Ok(None))
        && b.mode_spec() == AppMode::Table && b.form_state() == a.form_state() && b.requests() == a.requests()
    &&& !querying && key_char(key) == Some('e') && selected_account(a.table()) is Some && r is Ok ==> {
        let acc = selected_account(a.table())->0;
        &&& (r matches Ok(None))
        &&& b.mode_spec() == AppMode::Edit
        &&& b.form_state().url.content == acc.url@
        &&& b.form_state().username.content == acc.username@
        &&& b.form_state().confirm.content.len() == 0
        &&& exists|p: Seq<Pwd>| #[trigger] newest_first(p) && b.form_state().password.content == if p.len() > 0 {
            p[0].password@
        } else {
            Seq::empty()
        }
        &&& b.requests() == a.requests().push(StorageRequest::ReadPwds { aid: acc.id })
    }
    &&& !querying && key == Key::Char('c') && selected_account(a.table()) is None ==> (r matches Ok(None))
        && b.mode_spec() == AppMode::Table && b.requests() == a.requests()
    &&& !querying && key == Key::Char('c') && selected_account(a.table()) is Some && r is Ok ==> {
        let acc = selected_account(a.table())->0;
        &&& b.mode_spec() == AppMode::Table
        &&& b.requests() == a.requests().push(StorageRequest::ReadPwds { aid: acc.id })
        &&& r matches Ok(Some(t)) ==> exists|p: Seq<Pwd>|
            #[trigger] newest_first(p) && p.len() > 0 && t@ == p[0].password@
    }
}

/// The view mode after `key`.
pub open spec fn view_post(a: App, b: App, key: Key, r: TecResult<Option<String>>) -> bool {
    &&& b.form_state() == a.form_state()
    &&& b.table() == a.table()
    &&& b.confirm_answer() == a.confirm_answer()
    &&& b.requests() == a.requests()
    &&& key == Key::Esc || key == Key::Char('q') ==> (r matches Ok(None)) && b.mode_spec() == AppMode::Table
        && b.view_state() == a.view_state()
    &&& !(key == Key::Esc || key == Key::Char('q')) ==> r is Ok && b.mode_spec() == a.mode_spec()
}

/// The add mode after `key`.
pub open spec fn add_post(a: App, b: App, key: Key, r: TecResult<Option<String>>) -> bool {
    &&& b.confirm_answer() == a.confirm_answer()
    &&& key == Key::Esc ==> (r matches Ok(None)) && b.mode_spec() == AppMode::Table
        && b.form_state() == a.form_state() && b.table() == a.table() && b.requests() == a.requests()
    &&& key == Key::Enter && !form_valid(a.form_state()) ==> (r matches Ok(None)) && b.mode_spec() == AppMode::Add
        && b.form_state() == form_validated(a.form_state()) && b.table() == a.table()
        && b.requests() == a.requests()
    &&& key == Key::Enter && form_valid(a.form_state()) && r is Ok ==> (r matches Ok(None))
        && b.mode_spec() == AppMode::Table
        && b.form_state() == form_emptied(form_validated(a.form_state()))
        && exists|aid: u32, t: usize|
            b.requests() == a.requests() + #[trigger] add_requests(a.form_state(), aid, t)
            && b.table().selected == row_of_id(b.table().items, aid)
    &&& key != Key::Esc && key != Key::Enter ==> (r matches Ok(None)) && b.mode_spec() == AppMode::Add
        && b.form_state() == form_step(a.form_state(), key) && b.table() == a.table()
        && b.requests() == a.requests()
}

/// The edit mode after `key`.
pub open spec fn edit_post(a: App, b: App, key: Key, r: TecResult<Option<String>>) -> bool {
    &&& b.confirm_answer() == a.confirm_answer()
    &&& key == Key::Esc ==> (r matches Ok(None)) && b.mode_spec() == AppMode::Table
        && b.form_state() == a.form_state() && b.table() == a.table() && b.requests() == a.requests()
    &&& key == Key::Enter && !form_valid(a.form_state()) ==> (r matches Ok(None)) && b.mode_spec() == AppMode::Edit
        && b.form_state() == form_validated(a.form_state()) && b.table() == a.table()
        && b.requests() == a.requests()
    &&& key == Key::Enter && form_valid(a.form_state()) && selected_account(a.table()) is None
        ==> (r matches Ok(None)) && b.mode_spec() == AppMode::Edit
        && b.form_state() == form_validated(a.form_state()) && b.requests() == a.requests()
    &&& key == Key::Enter && form_valid(a.form_state()) && selected_account(a.table()) is Some && r is Ok ==> {
        let acc = selected_account(a.table())->0;
        &&& (r matches Ok(None))
        &&& b.mode_spec() == AppMode::Table
        &&& b.form_state() == form_emptied(form_validated(a.form_state()))
        &&& exists|t: usize| b.requests() == a.requests() + #[trigger] edit_requests(a.form_state(), acc.id, t)
        &&& b.table().selected == row_of_id(b.table().items, acc.id)
    }
    &&& key != Key::Esc && key != Key::Enter ==> (r matches Ok(None)) && b.mode_spec() == AppMode::Edit
        && b.form_state() == form_step(a.form_state(), key) && b.table() == a.table()
        && b.requests() == a.requests()
}

/// The delete confirmation after `key`.
pub open spec fn del_post(a: App, b: App, key: Key, r: TecResult<Option<String>>) -> bool {
    let yes = eq_ignore_ascii_case(a.confirm_answer().content, "yes"@);
    &&& b.form_state() == a.form_state()
    &&& key == Key::Esc ==> (r matches Ok(None)) && b.mode_spec() == AppMode::Table && b.table() == a.table()
        && b.confirm_answer() == a.confirm_answer() && b.requests() == a.requests()
    &&& key == Key::Enter ==> b.confirm_answer() == (InputState {
        content: Seq::empty(),
        pos: 0,
        ..a.confirm_answer()
    })
    &&& key == Key::Enter && !yes ==> (r matches Ok(None)) && b.mode_spec() == AppMode::Table
        && b.table() == a.table() && b.requests() == a.requests()
    &&& key == Key::Enter && yes && selected_account(a.table()) is None ==> (r matches Ok(None))
        && b.mode_spec() == AppMode::Table && b.table().items == a.table().items
        && b.table().selected == a.table().selected && b.requests() == a.requests()
    &&& key == Key::Enter && yes && selected_account(a.table()) is Some && r is Ok ==> {
        let acc = selected_account(a.table())->0;
        &&& (r matches Ok(None))
        &&& b.mode_spec() == AppMode::Table
        &&& b.requests() == a.requests() + delete_requests(acc.id)
        &&& b.table().items.filtered == all_positions(b.table().items.accounts.len() as int)
        &&& b.table().query.content.len() == 0
    }
    &&& key != Key::Esc && key != Key::Enter ==> (r matches Ok(None)) && b.mode_spec() == a.mode_spec()
        && b.confirm_answer() == typed_into(a.confirm_answer(), key) && b.table() == a.table()
        && b.requests() == a.requests()
}

impl App {
    pub closed spec fn mode_spec(&self) -> AppMode {
        self.mode
    }

    pub closed spec fn quitting(&self) -> bool {
        self.quiting
    }

    pub closed spec fn help(&self) -> Seq<char> {
        self.help_text@
    }

    pub closed spec fn table(&self) -> AccountTableState {
        self.account_table@
    }

    pub closed spec fn form_state(&self) -> FormState {
        self.form@
    }

    pub closed spec fn view_state(&self) -> ViewState {
        self.view@
    }

    /// The answer typed into the delete confirmation.
    pub closed spec fn confirm_answer(&self) -> InputState {
        self.to_del.answer()
    }

    /// Every request handed to storage since the session was built, in order.
    pub closed spec fn requests(&self) -> Seq<StorageRequest> {
        self.requests@
    }

    pub closed spec fn wf(&self) -> bool {
        self.cipher.wf()
    }

    /// Opens the database at `db_path` with the master key `key`, loads every
    /// account and shows the table.
    pub fn build(db_path: &str, key: &[u8]) -> (r: TecResult<Self>)
        ensures
            key@.len() != 32 ==> r is Err,
            r matches Ok(a) ==> a.wf() && a.mode_spec() == AppMode::Table && !a.quitting()
                && a.help() == help_for(AppMode::Table) && a.requests().len() == 0,
    {
        let conn = sqlite_conn(db_path)?;
        let cipher = AesCipher::from_slice(key)?;
        let mut app = App {
            mode: AppMode::Table,
            conn,
            cipher,
            quiting: false,
            help_text: String::new(),
            account_table: AccountTable::new(),
            view: View::new(),
            form: Form::new(),
            to_del: Confirm::new().with_content("To delete the selected account?"),
            requests: Ghost(Seq::empty()),
        };
        app.change_mode(AppMode::Table);
        app.load_accounts()?;
        Ok(app)
    }

    /// Handles one key and returns the text to put on the clipboard, if any.
    /// Control-c asks to quit from every mode and changes nothing else; any
    /// other key goes to the handler of the current mode.
    pub fn on_key_event(&mut self, key: Key) -> (r: TecResult<Option<String>>)
        requires
            old(self).wf(),
        ensures
            final(self).wf(),
            key == Key::Ctrl('c') ==> (r matches Ok(None)) && final(self).quitting()
                && final(self).mode_spec() == old(self).mode_spec() && widgets_kept(*old(self), *final(self)),
            key != Key::Ctrl('c') ==> final(self).quitting() == old(self).quitting(),
            key != Key::Ctrl('c') && old(self).mode_spec() == AppMode::Table ==> table_post(
                *old(self),
                *final(self),
                key,
                r,
            ),
            key != Key::Ctrl('c') && old(self).mode_spec() == AppMode::View ==> view_post(
                *old(self),
                *final(self),
                key,
                r,
            ),
            key != Key::Ctrl('c') && old(self).mode_spec() == AppMode::Add ==> add_post(
                *old(self),
                *final(self),
                key,
                r,
            ),
            key != Key::Ctrl('c') && old(self).mode_spec() == AppMode::Edit ==> edit_post(
                *old(self),
                *final(self),
                key,
                r,
            ),
            key != Key::Ctrl('c') && old(self).mode_spec() == AppMode::Del ==> del_post(
                *old(self),
                *final(self),
                key,
                r,
            ),
            final(self).help() == help_for(final(self).mode_spec()) || final(self).help() == old(self).help(),
    {
        match key {
            Key::Ctrl('c') => {
                self.quiting = true;
                return Ok(None);
            },
            _ => {},
        }
        match self.mode {
            AppMode::Table => self.table_on_key_event(key),
            AppMode::View => self.view_on_key_event(key),
            AppMode::Add => self.add_on_key_event(key),
            AppMode::Del => self.del_on_key_event(key),
            AppMode::Edit => self.edit_on_key_event(key),
        }
    }

    /// Periodic work between keys; there is none.
    pub fn on_tick(&self) {
    }

    /// Whether the quit key was pressed.
    pub fn quit(&self) -> (r: bool)
        ensures
            r == self.quitting(),
    {
        self.quiting
    }

    fn table_on_key_event(&mut self, key: Key) -> (r: TecResult<Option<String>>)
        requires
            old(self).wf(),
            old(self).mode == AppMode::Table,
        ensures
            final(self).wf(),
            final(self).quiting == old(self).quiting,
            table_post(*old(self), *final(self), key, r),
            final(self).help() == help_for(final(self).mode) || final(self).help() == old(self).help(),
    {
        let mut copied: Option<String> = None;
        if !self.account_table.is_querying() {
            match key {
                Key::Enter | Key::Char('l') | Key::Ctrl('l') => {
                    if let Some(account) = self.account_table.selected() {
                        let id = account.id;
                        self.view.load_account(account);
                        self.requests = Ghost(self.requests@.push(StorageRequest::ReadPwds { aid: id }));
                        let pwds = PwdRepo::new(&self.conn, &self.cipher).query(id)?;
                        self.view.load_pwds(pwds);
                        self.change_mode(AppMode::View);
                    }
                },
                Key::Char('a') | Key::Ctrl('a') => {
                    self.form.reset();
                    self.change_mode(AppMode::Add);
                },
                Key::Char('e') | Key::Ctrl('e') => {
                    if let Some(acc) = self.account_table.selected() {
                        self.requests = Ghost(self.requests@.push(StorageRequest::ReadPwds { aid: acc.id }));
                        let pwds = PwdRepo::new(&self.conn, &self.cipher).query(acc.id)?;
                        if pwds.len() > 0 {
                            self.form.load_account(&acc, Some(&pwds[0]));
                        } else {
                            self.form.load_account(&acc, None);
                        }
                        assert(newest_first(pwds@));
                        self.change_mode(AppMode::Edit);
                    }
                },
                Key::Char('d') | Key::Ctrl('d') => {
                    self.change_mode(AppMode::Del);
                },
                Key::Char('c') => {
                    copied = self.copy()?;
                },
                _ => {},
            }
        }
        self.account_table.on_key_event(key);
        Ok(copied)
    }

    fn view_on_key_event(&mut self, key: Key) -> (r: TecResult<Option<String>>)
        requires
            old(self).wf(),
        ensures
            final(self).wf(),
            final(self).quiting == old(self).quiting,
            final(self).mode == AppMode::Table || final(self).mode == old(self).mode,
            view_post(*old(self), *final(self), key, r),
            final(self).help() == help_for(final(self).mode) || final(self).help() == old(self).help(),
    {
        match key {
            Key::Esc | Key::Char('q') => {
                self.change_mode(AppMode::Table);
                Ok(None)
            },
            _ => Ok(self.view.on_key_event(key)),
        }
    }

    fn add_on_key_event(&mut self, key: Key) -> (r: TecResult<Option<String>>)
        requires
            old(self).wf(),
            old(self).mode == AppMode::Add,
        ensures
            final(self).wf(),
            final(self).quiting == old(self).quiting,
            add_post(*old(self), *final(self), key, r),
            final(self).help() == help_for(final(self).mode) || final(self).help() == old(self).help(),
    {
        match key {
            Key::Esc => {
                self.change_mode(AppMode::Table);
            },
            Key::Enter => {
                if self.form.validate() {
                    #[verifier::truncate]
                    let current = current_millis() as usize;
                    let acc = account_from_form(&self.form, 0, current);
                    self.requests = Ghost(self.requests@.push(StorageRequest::AddAccount {
                        url: acc.url@,
                        username: acc.username@,
                        created: current,
                        changed: current,
                    }));
                    let aid = AccountRepo::new(&self.conn, &self.cipher).add(&acc)?;
                    let pwd = pwd_from_form(&self.form, aid, current);
                    self.requests = Ghost(self.requests@.push(StorageRequest::AddPwd {
                        aid,
                        password: pwd.password@,
                        created: current,
                    }));
                    PwdRepo::new(&self.conn, &self.cipher).add(&pwd)?;
                    self.load_accounts()?;
                    self.account_table.select_by_aid(aid);
                    self.form.reset();
                    self.change_mode(AppMode::Table);
                    assert(self.requests@ =~= old(self).requests@ + add_requests(old(self).form@, aid, current));
                }
            },
            _ => self.form.on_key_event(key),
        }
        Ok(None)
    }

    fn edit_on_key_event(&mut self, key: Key) -> (r: TecResult<Option<String>>)
        requires
            old(self).wf(),
            old(self).mode == AppMode::Edit,
        ensures
            final(self).wf(),
            final(self).quiting == old(self).quiting,
            edit_post(*old(self), *final(self), key, r),
            final(self).help() == help_for(final(self).mode) || final(self).help() == old(self).help(),
    {
        match key {
            Key::Esc => {
                self.change_mode(AppMode::Table);
            },
            Key::Enter => {
                if self.form.validate() {
                    #[verifier::truncate]
                    let current = current_millis() as usize;
                    if let Some(selected) = self.account_table.selected() {
                        let aid = selected.id;
                        let acc = account_from_form(&self.form, aid, current);
                        self.requests = Ghost(self.requests@.push(StorageRequest::UpdateAccount {
                            id: aid,
                            url: acc.url@,
                            username: acc.username@,
                            changed: current,
                        }));
                        AccountRepo::new(&self.conn, &self.cipher).update(&acc)?;
                        let pwd = pwd_from_form(&self.form, aid, current);
                        self.requests = Ghost(self.requests@.push(StorageRequest::AddPwd {
                            aid,
                            password: pwd.password@,
                            created: current,
                        }));
                        PwdRepo::new(&self.conn, &self.cipher).add(&pwd)?;
                        self.load_accounts()?;
                        self.account_table.select_by_aid(aid);
                        self.form.reset();
                        self.change_mode(AppMode::Table);
                        assert(self.requests@ =~= old(self).requests@ + edit_requests(old(self).form@, aid, current));
                    }
                }
            },
            _ => self.form.on_key_event(key),
        }
        Ok(None)
    }

    fn del_on_key_event(&mut self, key: Key) -> (r: TecResult<Option<String>>)
        requires
            old(self).wf(),
        ensures
            final(self).wf(),
            final(self).quiting == old(self).quiting,
            final(self).mode == AppMode::Table || final(self).mode == old(self).mode,
            del_post(*old(self), *final(self), key, r),
            final(self).help() == help_for(final(self).mode) || final(self).help() == old(self).help(),
    {
        match key {
            Key::Esc => self.change_mode(AppMode::Table),
            Key::Enter => {
                if self.to_del.confirm() {
                    if let Some(acc) = self.account_table.selected() {
                        self.requests = Ghost(self.requests@.push(StorageRequest::DeleteAccount { id: acc.id }));
                        AccountRepo::new(&self.conn, &self.cipher).delete(acc.id)?;
                        self.requests = Ghost(self.requests@.push(StorageRequest::DeletePwds { aid: acc.id }));
                        PwdRepo::new(&self.conn, &self.cipher).delete(acc.id)?;
                        let accounts = AccountRepo::new(&self.conn, &self.cipher).all()?;
                        self.account_table.load(accounts);
                        assert(self.requests@ =~= old(self).requests@ + delete_requests(acc.id));
                    }
                }
                self.change_mode(AppMode::Table);
            },
            _ => self.to_del.on_key_event(key),
        }
        Ok(None)
    }

    fn change_mode(&mut self, mode: AppMode)
        ensures
            final(self).mode == mode,
            final(self).help() == help_for(mode),
            final(self).quiting == old(self).quiting,
            final(self).conn == old(self).conn,
            final(self).cipher == old(self).cipher,
            final(self).account_table == old(self).account_table,
            final(self).view == old(self).view,
            final(self).form == old(self).form,
            final(self).to_del == old(self).to_del,
            final(self).requests == old(self).requests,
    {
        self.mode = mode;
        let text = match mode {
            AppMode::Table => "/: filter, a: add, e: edit, d: delete, c: copy password, j: next, k: prev, l/enter: view, ctrl-c: quit",
            AppMode::View => "View Account - c: copy, j: next, k: prev, x: show/hide passwords, q/esc: back",
            AppMode::Add => "Add Account - down/ctrl-j: next, up/ctrl-k: prev, ctrl-x: show/hide passwords, ctrl-v: paste, esc: back",
            AppMode::Del => "Delete Account - esc: back",
            AppMode::Edit => "Edit Account - ctrl-j: next, ctrl-k: prev, ctrl-x: show/hide passwords, ctrl-v: paste, esc: back",
        };
        self.help_text = to_string(text);
    }

    /// The current password of the selected account, to be copied.
    fn copy(&mut self) -> (r: TecResult<Option<String>>)
        requires
            old(self).wf(),
        ensures
            final(self).wf(),
            final(self).mode == old(self).mode,
            final(self).quiting == old(self).quiting,
            final(self).form == old(self).form,
            final(self).view == old(self).view,
            final(self).to_del == old(self).to_del,
            final(self).help_text == old(self).help_text,
            final(self).table().items == old(self).table().items,
            final(self).table().query == old(self).table().query,
            final(self).table().selected == old(self).table().selected,
            selected_account(old(self).table()) is None ==> (r matches Ok(None))
                && final(self).requests == old(self).requests,
            selected_account(old(self).table()) is Some && r is Ok ==> final(self).requests@
                == old(self).requests@.push(StorageRequest::ReadPwds { aid: selected_account(old(self).table())->0.id }),
            r matches Ok(Some(t)) ==> exists|p: Seq<Pwd>| #[trigger] newest_first(p) && p.len() > 0 && t@ == p[0].password@,
    {
        if let Some(account) = self.account_table.selected() {
            self.requests = Ghost(self.requests@.push(StorageRequest::ReadPwds { aid: account.id }));
            let pwds = PwdRepo::new(&self.conn, &self.cipher).query(account.id)?;
            if pwds.len() > 0 {
                assert(newest_first(pwds@));
                return Ok(Some(pwds[0].password.clone()));
            }
        }
        Ok(None)
    }

    fn load_accounts(&mut self) -> (r: TecResult<()>)
        requires
            old(self).wf(),
        ensures
            final(self).wf(),
            final(self).mode == old(self).mode,
            final(self).quiting == old(self).quiting,
            final(self).help_text == old(self).help_text,
            final(self).form == old(self).form,
            final(self).view == old(self).view,
            final(self).to_del == old(self).to_del,
            final(self).requests == old(self).requests,
    {
        let accounts = AccountRepo::new(&self.conn, &self.cipher).all()?;
        self.account_table.load(accounts);
        Ok(())
    }

    /// The mode the session is in.
    pub fn mode(&self) -> (r: AppMode)
        ensures
            r == self.mode_spec(),
    {
        self.mode
    }

    pub fn help_text(&self) -> (r: &str)
        ensures
            r@ == self.help(),
    {
        self.help_text.as_str()
    }

    pub fn account_table(&self) -> (r: &AccountTable)
        ensures
            r@ == self.table(),
    {
        &self.account_table
    }

    pub fn view(&self) -> (r: &View)
        ensures
            r@ == self.view_state(),
    {
        &self.view
    }

    pub fn form(&self) -> (r: &Form)
        ensures
            r@ == self.form_state(),
    {
        &self.form
    }

    /// The delete confirmation prompt.
    pub fn confirm(&self) -> (r: &Confirm)
        ensures
            r.answer() == self.confirm_answer(),
    {
        &self.to_del
    }
}

} // verus!
