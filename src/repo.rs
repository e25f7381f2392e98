//! Encrypted storage of accounts and password history. Every url, username
//! and password is sealed with the vault's [`AesCipher`] before it reaches the
//! storage engine and opened after it comes back.
use vstd::prelude::*;
use vstd::utf8::{decode_utf8, encode_utf8, valid_utf8};

use rusqlite::Connection;

use crate::cipher::{AesCipher, NONCE_LEN, P_MAX, open_envelope, sealed_envelope};
use crate::error::{TecError, TecResult};
use crate::model::{Account, Pwd};
use crate::text::{utf8_bytes, utf8_string};

verus! {

#[verifier::external_type_specification]
#[verifier::external_body]
pub struct ExConnection(rusqlite::Connection);

/// A stored account row as the storage engine returns it: id, sealed url,
/// sealed username, created, changed.
pub type AccountRow = (u32, Vec<u8>, Vec<u8>, usize, usize);

/// A stored password row as the storage engine returns it: id, account id,
/// sealed password, created.
pub type PwdRow = (u32, u32, Vec<u8>, usize);

const CREATE_ACCOUNT: &'static str = "CREATE TABLE if not exists account (id INTEGER PRIMARY KEY, url BLOB NOT NULL, username BLOB NOT NULL, created INTEGER, changed INTEGER)";
const CREATE_PWD: &'static str = "CREATE TABLE if not exists pwd (id INTEGER PRIMARY KEY, aid INTEGER NOT NULL, password BLOB NOT NULL, created INTEGER)";
const INSERT_ACCOUNT: &'static str = "INSERT INTO account (url, username, created, changed) VALUES (?1, ?2, ?3, ?4) RETURNING id";
const UPDATE_ACCOUNT: &'static str = "UPDATE account SET url = ?1, username = ?2, changed = ?3 WHERE id = ?4";
const DELETE_ACCOUNT: &'static str = "DELETE FROM account WHERE id = ?1";
const SELECT_ACCOUNTS: &'static str = "SELECT id, url, username, created, changed FROM account";
const INSERT_PWD: &'static str = "INSERT INTO pwd (aid, password, created) VALUES (?1, ?2, ?3) RETURNING id";
const SELECT_PWDS: &'static str = "SELECT id, aid, password, created FROM pwd WHERE aid = ?1";
const DELETE_PWDS: &'static str = "DELETE FROM pwd WHERE aid = ?1";

/// Relies on `rusqlite::Connection::open`: opens or creates the database file.
#[verifier::external_body]
fn open_connection(path: &str) -> (r: Result<Connection, rusqlite::Error>) {
    Connection::open(path)
}

/// Relies on `rusqlite::Connection::execute`: runs one statement without
/// parameters.
#[verifier::external_body]
fn execute_plain(conn: &Connection, sql: &str) -> (r: Result<usize, rusqlite::Error>) {
    conn.execute(sql, ())
}

/// Relies on `rusqlite::Connection::execute`: runs one statement with an
/// integer parameter.
#[verifier::external_body]
fn execute_with_id(conn: &Connection, sql: &str, id: u32) -> (r: Result<usize, rusqlite::Error>) {
    conn.execute(sql, [id])
}

/// Relies on `rusqlite::Connection::execute`: runs one statement with two
/// blobs and two integers as parameters.
#[verifier::external_body]
fn execute_update(conn: &Connection, sql: &str, url: &[u8], username: &[u8], changed: usize, id: u32) -> (r: Result<usize, rusqlite::Error>) {
    conn.execute(sql, (url, username, changed, id))
}

/// Relies on `rusqlite::Connection::query_row`: runs an insert with two blobs
/// and two integers and reads back the id it returns.
#[verifier::external_body]
fn insert_account_row(conn: &Connection, sql: &str, url: &[u8], username: &[u8], created: usize, changed: usize) -> (r: Result<u32, rusqlite::Error>) {
    conn.query_row(sql, (url, username, created, changed), |row| row.get(0))
}

/// Relies on `rusqlite::Connection::query_row`: runs an insert with an
/// integer, a blob and an integer and reads back the id it returns.
#[verifier::external_body]
fn insert_pwd_row(conn: &Connection, sql: &str, aid: u32, password: &[u8], created: usize) -> (r: Result<u32, rusqlite::Error>) {
    conn.query_row(sql, (aid, password, created), |row| row.get(0))
}

/// Relies on `rusqlite::Connection::prepare` and `Statement::query_map`:
/// reads every account row, field by field.
#[verifier::external_body]
fn select_account_rows(conn: &Connection, sql: &str) -> (r: Result<Vec<AccountRow>, rusqlite::Error>) {
    let mut stmt = conn.prepare(sql)?;
    let rows = stmt.query_map([], |row| Ok((row.get(0)?, row.get(1)?, row.get(2)?, row.get(3)?, row.get(4)?)))?;
    rows.collect()
}

/// Relies on `rusqlite::Connection::prepare` and `Statement::query_map`:
/// reads the password rows of one account, field by field.
#[verifier::external_body]
fn select_pwd_rows(conn: &Connection, sql: &str, aid: u32) -> (r: Result<Vec<PwdRow>, rusqlite::Error>) {
    let mut stmt = conn.prepare(sql)?;
    let rows = stmt.query_map([aid], |row| Ok((row.get(0)?, row.get(1)?, row.get(2)?, row.get(3)?)))?;
    rows.collect()
}

/// Opens the database at `path` and creates the two tables where missing.
pub fn sqlite_conn(path: &str) -> (r: TecResult<Connection>) {
    let conn = match open_connection(path) {
        Ok(c) => c,
        Err(e) => return Err(TecError::SqliteError(e)),
    };
    if let Err(e) = execute_plain(&conn, CREATE_ACCOUNT) {
        return Err(TecError::SqliteError(e));
    }
    if let Err(e) = execute_plain(&conn, CREATE_PWD) {
        return Err(TecError::SqliteError(e));
    }
    Ok(conn)
}

/// Whether `blob` seals the UTF-8 encoding of `text` under `key`.
pub open spec fn seals_text(key: Seq<u8>, blob: Seq<u8>, text: Seq<char>) -> bool {
    exists|n: Seq<u8>| n.len() == NONCE_LEN && blob == #[trigger] sealed_envelope(key, n, encode_utf8(text))
}

/// The text that a blob holds under `key`: `None` where it does not open or
/// opens to bytes that are not UTF-8.
pub open spec fn opened_text(key: Seq<u8>, blob: Seq<u8>) -> Option<Seq<char>> {
    match open_envelope(key, blob) {
        Some(b) => if valid_utf8(b) { Some(decode_utf8(b)) } else { None },
        None => None,
    }
}

/// Seals the UTF-8 encoding of a text.
pub fn seal_text(cipher: &AesCipher, text: &str) -> (r: TecResult<Vec<u8>>)
    requires
        cipher.wf(),
    ensures
        r is Ok <==> encode_utf8(text@).len() <= P_MAX,
        r matches Ok(b) ==> seals_text(cipher.key(), b@, text@),
{
    let bytes = utf8_bytes(text);
    cipher.encypt(bytes.as_slice())
}

/// Opens a sealed text.
pub fn open_text(cipher: &AesCipher, blob: &[u8]) -> (r: TecResult<String>)
    requires
        cipher.wf(),
    ensures
        match opened_text(cipher.key(), blob@) {
            Some(t) => r matches Ok(s) && s@ == t,
            None => r is Err,
        },
{
    let bytes = cipher.decypt(blob)?;
    match utf8_string(bytes) {
        Ok(s) => Ok(s),
        Err(e) => Err(TecError::FromUtf8Error(e)),
    }
}

/// Whether `a` is the account that `row` holds under `key`.
pub open spec fn account_of_row(key: Seq<u8>, row: AccountRow, a: Account) -> bool {
    &&& a.id == row.0
    &&& opened_text(key, row.1@) == Some(a.url@)
    &&& opened_text(key, row.2@) == Some(a.username@)
    &&& a.created == row.3
    &&& a.changed == row.4
}

/// Whether `accs` are the accounts that `rows` hold under `key`, in order.
pub open spec fn accounts_of_rows(key: Seq<u8>, rows: Seq<AccountRow>, accs: Seq<Account>) -> bool {
    rows.len() == accs.len() && forall|i: int| 0 <= i < rows.len() ==> account_of_row(key, rows[i], #[trigger] accs[i])
}

/// Whether every row opens under `key`.
pub open spec fn rows_open(key: Seq<u8>, rows: Seq<AccountRow>) -> bool {
    forall|i: int| 0 <= i < rows.len() ==> (#[trigger] opened_text(key, rows[i].1@)) is Some
        && opened_text(key, rows[i].2@) is Some
}

/// The accounts that stored rows hold; the whole listing fails where one row
/// does not open.
pub fn open_accounts(cipher: &AesCipher, rows: Vec<AccountRow>) -> (r: TecResult<Vec<Account>>)
    requires
        cipher.wf(),
    ensures
        r is Ok <==> rows_open(cipher.key(), rows@),
        r matches Ok(v) ==> v@.len() == rows@.len() && forall|i: int|
            0 <= i < rows@.len() ==> account_of_row(cipher.key(), rows@[i], #[trigger] v@[i]),
{
    let mut out: Vec<Account> = Vec::new();
    let mut i: usize = 0;
    while i < rows.len()
        invariant
            cipher.wf(),
            i <= rows@.len(),
            out@.len() == i,
            forall|j: int| 0 <= j < i ==> account_of_row(cipher.key(), rows@[j], #[trigger] out@[j]),
            rows_open(cipher.key(), rows@.subrange(0, i as int)),
        decreases rows@.len() - i,
    {
        let row = &rows[i];
        let url = match open_text(cipher, row.1.as_slice()) {
            Ok(s) => s,
            Err(e) => {
                assert(!rows_open(cipher.key(), rows@));
                return Err(e);
            },
        };
        let username = match open_text(cipher, row.2.as_slice()) {
            Ok(s) => s,
            Err(e) => {
                assert(!rows_open(cipher.key(), rows@));
                return Err(e);
            },
        };
        out.push(Account { id: row.0, url, username, created: row.3, changed: row.4 });
        proof {
            assert forall|j: int| 0 <= j < i + 1 implies (#[trigger] opened_text(cipher.key(), rows@.subrange(0, i + 1)[j].1@)) is Some
                && opened_text(cipher.key(), rows@.subrange(0, i + 1)[j].2@) is Some by {
                if j < i {
                    assert(rows@.subrange(0, i as int)[j] == rows@[j]);
                }
            }
        }
        i = i + 1;
    }
    assert(rows@.subrange(0, rows@.len() as int) =~= rows@);
    Ok(out)
}

/// Whether `p` is the password entry that `row` holds under `key`.
pub open spec fn pwd_of_row(key: Seq<u8>, row: PwdRow, p: Pwd) -> bool {
    &&& p.id == row.0
    &&& p.aid == row.1
    &&& opened_text(key, row.2@) == Some(p.password@)
    &&& p.created == row.3
}

/// Whether `pwds` are the entries that `rows` hold under `key`, in order.
pub open spec fn pwds_of_rows(key: Seq<u8>, rows: Seq<PwdRow>, pwds: Seq<Pwd>) -> bool {
    rows.len() == pwds.len() && forall|i: int| 0 <= i < rows.len() ==> pwd_of_row(key, rows[i], #[trigger] pwds[i])
}

/// Whether every password row opens under `key`.
pub open spec fn pwd_rows_open(key: Seq<u8>, rows: Seq<PwdRow>) -> bool {
    forall|i: int| 0 <= i < rows.len() ==> (#[trigger] opened_text(key, rows[i].2@)) is Some
}

/// The password entries that stored rows hold, in row order; the whole
/// listing fails where one row does not open.
pub fn open_pwds(cipher: &AesCipher, rows: Vec<PwdRow>) -> (r: TecResult<Vec<Pwd>>)
    requires
        cipher.wf(),
    ensures
        r is Ok <==> pwd_rows_open(cipher.key(), rows@),
        r matches Ok(v) ==> v@.len() == rows@.len() && forall|i: int|
            0 <= i < rows@.len() ==> pwd_of_row(cipher.key(), rows@[i], #[trigger] v@[i]),
{
    let mut out: Vec<Pwd> = Vec::new();
    let mut i: usize = 0;
    while i < rows.len()
        invariant
            cipher.wf(),
            i <= rows@.len(),
            out@.len() == i,
            forall|j: int| 0 <= j < i ==> pwd_of_row(cipher.key(), rows@[j], #[trigger] out@[j]),
            pwd_rows_open(cipher.key(), rows@.subrange(0, i as int)),
        decreases rows@.len() - i,
    {
        let row = &rows[i];
        let password = match open_text(cipher, row.2.as_slice()) {
            Ok(s) => s,
            Err(e) => {
                assert(!pwd_rows_open(cipher.key(), rows@));
                return Err(e);
            },
        };
        out.push(Pwd { id: row.0, aid: row.1, password, created: row.3 });
        proof {
            assert forall|j: int| 0 <= j < i + 1 implies (#[trigger] opened_text(cipher.key(), rows@.subrange(0, i + 1)[j].2@)) is Some by {
                if j < i {
                    assert(rows@.subrange(0, i as int)[j] == rows@[j]);
                }
            }
        }
        i = i + 1;
    }
    assert(rows@.subrange(0, rows@.len() as int) =~= rows@);
    Ok(out)
}

/// Whether entries are ordered by `created`, the newest first.
pub open spec fn newest_first(s: Seq<Pwd>) -> bool {
    forall|i: int, j: int| 0 <= i < j < s.len() ==> #[trigger] s[i].created >= #[trigger] s[j].created
}

/// The entries ordered by `created`, the newest first; entries created at the
/// same moment keep their order.
pub fn sort_newest_first(pwds: Vec<Pwd>) -> (r: Vec<Pwd>)
    ensures
        newest_first(r@),
        r@.to_multiset() == pwds@.to_multiset(),
{
    broadcast use vstd::seq_lib::group_to_multiset_ensures;
    let ghost orig = pwds@;
    let mut rest = pwds;
    let mut out: Vec<Pwd> = Vec::new();
    let ghost taken: Seq<Pwd> = Seq::empty();
    while rest.len() > 0
        invariant
            orig == taken + rest@,
            newest_first(out@),
            out@.to_multiset() == taken.to_multiset(),
        decreases rest@.len(),
    {
        let ghost r0 = rest@;
        let x = rest.remove(0);
        let mut k: usize = 0;
        while k < out.len() && out[k].created >= x.created
            invariant
                k <= out@.len(),
                forall|t: int| 0 <= t < k ==> #[trigger] out@[t].created >= x.created,
            decreases out@.len() - k,
        {
            k = k + 1;
        }
        proof {
            assert(k < out@.len() ==> out@[k as int].created < x.created);
            vstd::seq_lib::to_multiset_insert(out@, k as int, x);
            vstd::seq_lib::to_multiset_build(taken, x);
            assert(orig == taken.push(x) + rest@) by {
                assert(taken.push(x) + rest@ =~= taken + r0);
            }
        }
        let ghost before = out@;
        out.insert(k, x);
        proof {
            taken = taken.push(x);
            assert forall|i: int, j: int| 0 <= i < j < out@.len() implies #[trigger] out@[i].created >= #[trigger] out@[j].created by {
                if j < k {
                } else if j == k {
                } else if i < k {
                    assert(out@[j] == before[j - 1]);
                    assert(before[i].created >= before[j - 1].created || i == j - 1);
                } else if i == k {
                    assert(out@[j] == before[j - 1]);
                    if k < before.len() {
                        assert(before[k as int].created >= before[j - 1].created || k == j - 1);
                    }
                } else {
                    assert(out@[i] == before[i - 1]);
                    assert(out@[j] == before[j - 1]);
                }
            }
        }
    }
    assert(taken =~= orig);
    out
}

/// Accounts, stored with url and username sealed.
pub struct AccountRepo<'a> {
    conn: &'a Connection,
    cipher: &'a AesCipher,
}

impl<'a> AccountRepo<'a> {
    pub closed spec fn key(&self) -> Seq<u8> {
        self.cipher.key()
    }

    pub closed spec fn wf(&self) -> bool {
        self.cipher.wf()
    }

    pub fn new(conn: &'a Connection, cipher: &'a AesCipher) -> (r: Self)
        requires
            cipher.wf(),
        ensures
            r.key() == cipher.key(),
            r.wf(),
    {
        AccountRepo { conn, cipher }
    }

    /// Stores a new account and returns the id the storage gave it. Fails
    /// without storing where a url or username is too long to seal.
    pub fn add(&self, a: &Account) -> (r: TecResult<u32>)
        requires
            self.wf(),
        ensures
            encode_utf8(a.url@).len() > P_MAX || encode_utf8(a.username@).len() > P_MAX ==> r is Err,
    {
        let url = seal_text(self.cipher, a.url.as_str())?;
        let username = seal_text(self.cipher, a.username.as_str())?;
        match insert_account_row(self.conn, INSERT_ACCOUNT, url.as_slice(), username.as_slice(), a.created, a.changed) {
            Ok(id) => Ok(id),
            Err(e) => Err(TecError::SqliteError(e)),
        }
    }

    /// Stores a new url, username and change time for the account with id
    /// `a.id`; its creation time stays.
    pub fn update(&self, a: &Account) -> (r: TecResult<()>)
        requires
            self.wf(),
        ensures
            encode_utf8(a.url@).len() > P_MAX || encode_utf8(a.username@).len() > P_MAX ==> r is Err,
    {
        let url = seal_text(self.cipher, a.url.as_str())?;
        let username = seal_text(self.cipher, a.username.as_str())?;
        match execute_update(self.conn, UPDATE_ACCOUNT, url.as_slice(), username.as_slice(), a.changed, a.id) {
            Ok(_) => Ok(()),
            Err(e) => Err(TecError::SqliteError(e)),
        }
    }

    /// Removes the account with id `id`; its password entries are removed by
    /// [`PwdRepo::delete`].
    pub fn delete(&self, id: u32) -> (r: TecResult<()>)
        ensures
            r is Err ==> (r matches Err(TecError::SqliteError(_))),
    {
        match execute_with_id(self.conn, DELETE_ACCOUNT, id) {
            Ok(_) => Ok(()),
            Err(e) => Err(TecError::SqliteError(e)),
        }
    }

    /// Every stored account, opened: each one read from a stored row whose
    /// url and username open under the vault key.
    pub fn all(&self) -> (r: TecResult<Vec<Account>>)
        requires
            self.wf(),
        ensures
            r matches Ok(v) ==> exists|rows: Seq<AccountRow>| #[trigger] accounts_of_rows(self.key(), rows, v@),
    {
        let rows = match select_account_rows(self.conn, SELECT_ACCOUNTS) {
            Ok(rows) => rows,
            Err(e) => return Err(TecError::SqliteError(e)),
        };
        let ghost stored = rows@;
        let res = open_accounts(self.cipher, rows);
        proof {
            if res is Ok {
                let v = res->Ok_0@;
                assert(accounts_of_rows(self.key(), stored, v));
            }
        }
        res
    }
}

/// Password history, stored with each password sealed.
pub struct PwdRepo<'a> {
    conn: &'a Connection,
    cipher: &'a AesCipher,
}

impl<'a> PwdRepo<'a> {
    pub closed spec fn key(&self) -> Seq<u8> {
        self.cipher.key()
    }

    pub closed spec fn wf(&self) -> bool {
        self.cipher.wf()
    }

    pub fn new(conn: &'a Connection, cipher: &'a AesCipher) -> (r: Self)
        requires
            cipher.wf(),
        ensures
            r.key() == cipher.key(),
            r.wf(),
    {
        PwdRepo { conn, cipher }
    }

    /// Appends a password entry and returns the id the storage gave it.
    pub fn add(&self, pwd: &Pwd) -> (r: TecResult<u32>)
        requires
            self.wf(),
        ensures
            encode_utf8(pwd.password@).len() > P_MAX ==> r is Err,
    {
        let password = seal_text(self.cipher, pwd.password.as_str())?;
        match insert_pwd_row(self.conn, INSERT_PWD, pwd.aid, password.as_slice(), pwd.created) {
            Ok(id) => Ok(id),
            Err(e) => Err(TecError::SqliteError(e)),
        }
    }

    /// The password entries of account `aid`, opened, the newest first: the
    /// first entry is the current password. Each one was read from a stored
    /// row whose password opens under the vault key.
    pub fn query(&self, aid: u32) -> (r: TecResult<Vec<Pwd>>)
        requires
            self.wf(),
        ensures
            r matches Ok(v) ==> newest_first(v@),
            r matches Ok(v) ==> exists|rows: Seq<PwdRow>, read: Seq<Pwd>|
                #[trigger] pwds_of_rows(self.key(), rows, read) && read.to_multiset() == v@.to_multiset(),
    {
        let rows = match select_pwd_rows(self.conn, SELECT_PWDS, aid) {
            Ok(rows) => rows,
            Err(e) => return Err(TecError::SqliteError(e)),
        };
        let ghost stored = rows@;
        let pwds = open_pwds(self.cipher, rows)?;
        let ghost read = pwds@;
        let sorted = sort_newest_first(pwds);
        assert(pwds_of_rows(self.key(), stored, read));
        Ok(sorted)
    }

    /// Removes every password entry of account `aid`.
    pub fn delete(&self, aid: u32) -> (r: TecResult<()>)
        ensures
            r is Err ==> (r matches Err(TecError::SqliteError(_))),
    {
        match execute_with_id(self.conn, DELETE_PWDS, aid) {
            Ok(_) => Ok(()),
            Err(e) => Err(TecError::SqliteError(e)),
        }
    }
}

} // verus!
