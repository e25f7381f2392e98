use tecpass::account_table::{AccountTable, AccountVec};
use tecpass::app::{App, AppMode};
use tecpass::auth::{Auth, AuthMode};
use tecpass::cipher::{AesCipher, Argon2Cipher};
use tecpass::confirm::{Confirm, ConfirmPassword};
use tecpass::error::TecError;
use tecpass::form::{Form, FormMode};
use tecpass::hex::{decode, encode};
use tecpass::input::Input;
use tecpass::key::Key;
use tecpass::keystore::KeyStore;
use tecpass::model::{Account, Pwd};
use tecpass::repo::{open_accounts, sort_newest_first, sqlite_conn, AccountRepo, PwdRepo};
use tecpass::import::{add_account, import_firefox_record, parse_usize, PassEntry, PassParser};
use tecpass::time::{current_millis, millis2string, millis2time, time2millis, time2string};
use tecpass::view::View;

fn account(id: u32, url: &str, username: &str) -> Account {
    Account { id, url: url.to_string(), username: username.to_string(), created: 1, changed: 2 }
}

fn type_into_form(form: &mut Form, text: &str) {
    for c in text.chars() {
        form.on_key_event(Key::Char(c));
    }
}

fn type_into_input(input: &mut Input, text: &str) {
    for c in text.chars() {
        input.on_key_event(Key::Char(c));
    }
}

#[test]
fn hex_encode_gives_lower_case_pairs() {
    assert_eq!(encode(&[0x00, 0xab, 0x10, 0xff]).unwrap(), "00ab10ff");
    assert_eq!(encode(&[]).unwrap(), "");
}

#[test]
fn hex_decode_reads_either_case() {
    assert_eq!(decode("00AB10ff").unwrap(), vec![0x00, 0xab, 0x10, 0xff]);
    assert_eq!(decode("").unwrap(), Vec::<u8>::new());
}

#[test]
fn hex_decode_rejects_odd_length_and_bad_digits() {
    assert!(matches!(decode("abc"), Err(TecError::HexError(_))));
    assert!(matches!(decode("zz"), Err(TecError::HexError(_))));
}

#[test]
fn aes_key_must_be_32_bytes() {
    assert!(matches!(AesCipher::from_slice(&[1u8; 31]), Err(TecError::InvalidLength(_))));
    assert!(AesCipher::from_slice(&[1u8; 32]).is_ok());
}

#[test]
fn aes_round_trip() {
    let c = AesCipher::from_slice(&[7u8; 32]).unwrap();
    for payload in [&b""[..], &b"a"[..], &b"hello vault"[..], &[0u8, 255, 3, 4][..]] {
        let blob = c.encypt(payload).unwrap();
        assert_eq!(blob.len(), 12 + payload.len() + 16);
        assert_eq!(c.decypt(&blob).unwrap(), payload.to_vec());
    }
}

#[test]
fn aes_fresh_nonce_each_call() {
    let c = AesCipher::from_slice(&[7u8; 32]).unwrap();
    let a = c.encypt(b"same").unwrap();
    let b = c.encypt(b"same").unwrap();
    assert_ne!(a, b);
}

#[test]
fn aes_cross_key_fails() {
    let k1 = AesCipher::from_slice(&[1u8; 32]).unwrap();
    let k2 = AesCipher::from_slice(&[2u8; 32]).unwrap();
    let blob = k1.encypt(b"secret").unwrap();
    assert!(matches!(k2.decypt(&blob), Err(TecError::AESError(_))));
}

#[test]
fn aes_tampered_or_short_blob_fails() {
    let c = AesCipher::from_slice(&[3u8; 32]).unwrap();
    let mut blob = c.encypt(b"secret").unwrap();
    let last = blob.len() - 1;
    blob[last] ^= 1;
    assert!(c.decypt(&blob).is_err());
    assert!(matches!(c.decypt(&[0u8; 5]), Err(TecError::InvalidInput)));
}

#[test]
fn argon2_round_trip_and_wrong_passphrase() {
    let text = Argon2Cipher::new(b"hunter2pass").encrypt(b"master key bytes").unwrap();
    assert_eq!(text.len(), 2 * (32 + 12 + 16 + 16));
    assert_eq!(Argon2Cipher::new(b"hunter2pass").decrypt(&text).unwrap(), b"master key bytes".to_vec());
    assert!(Argon2Cipher::new(b"hunter2pasS").decrypt(&text).is_err());
    assert!(Argon2Cipher::new(b"hunter2pass").decrypt("abcd").is_err());
}

#[test]
fn keystore_unlocks_what_it_stored() {
    let mut ks = KeyStore::new(None);
    assert!(!ks.has_key());
    assert!(matches!(ks.get_key(b"hunter2pass"), Err(TecError::PasswordNotMatch)));
    ks.set_key(b"hunter2pass").unwrap();
    assert!(ks.has_key());
    let k1 = ks.get_key(b"hunter2pass").unwrap();
    let k2 = ks.get_key(b"hunter2pass").unwrap();
    assert_eq!(k1.len(), 32);
    assert_eq!(k1, k2);
    assert_eq!(ks.stored().unwrap().len(), 184);
    let reread = KeyStore::new(Some(ks.stored().unwrap().to_string()));
    assert_eq!(reread.get_key(b"hunter2pass").unwrap(), k1);
}

#[test]
fn keystore_wrong_passphrase_fails() {
    let mut ks = KeyStore::new(None);
    ks.set_key(b"hunter2pass").unwrap();
    for wrong in ["hunter2pasx", "12345678", "a much longer wrong passphrase!!"] {
        assert!(ks.get_key(wrong.as_bytes()).is_err());
    }
    assert!(matches!(ks.get_key(b"hunter2pasx"), Err(TecError::PasswordNotMatch)));
    for text in ["not hex at all", "", "abc", "00ff"] {
        let damaged = KeyStore::new(Some(text.to_string()));
        assert!(matches!(damaged.get_key(b"hunter2pass"), Err(TecError::PasswordNotMatch)));
    }
}

#[test]
fn input_edits_at_the_cursor() {
    let mut i = Input::new().with_active();
    type_into_input(&mut i, "abd");
    assert_eq!(i.pos(), 3);
    i.on_key_event(Key::Left);
    i.on_key_event(Key::Char('c'));
    assert_eq!(i.content(), "abcd");
    assert_eq!(i.pos(), 3);
    i.on_key_event(Key::Backspace);
    assert_eq!(i.content(), "abd");
    assert_eq!(i.pos(), 2);
    i.on_key_event(Key::Paste("XY".to_string()));
    assert_eq!(i.content(), "abXYd");
    assert_eq!(i.pos(), 4);
    for _ in 0..10 {
        i.on_key_event(Key::Right);
    }
    assert_eq!(i.pos(), 5);
    for _ in 0..10 {
        i.on_key_event(Key::Left);
    }
    assert_eq!(i.pos(), 0);
    i.on_key_event(Key::Backspace);
    assert_eq!(i.content(), "abXYd");
}

#[test]
fn input_cursor_counts_characters() {
    let mut i = Input::new().with_active();
    type_into_input(&mut i, "héé");
    assert_eq!(i.pos(), 3);
    i.on_key_event(Key::Left);
    i.on_key_event(Key::Char('x'));
    assert_eq!(i.content(), "héxé");
}

#[test]
fn input_inactive_ignores_keys_and_max_stops_typing() {
    let mut i = Input::new();
    i.on_key_event(Key::Char('a'));
    assert_eq!(i.content(), "");
    let mut j = Input::new().with_active().with_max(2);
    type_into_input(&mut j, "abc");
    assert_eq!(j.content(), "ab");
}

#[test]
fn input_validate_sets_and_clears_message() {
    let mut i = Input::new().with_active().with_min(8).with_max(32);
    type_into_input(&mut i, "short");
    assert!(!i.validate());
    assert_eq!(i.msg(), "The length is required be 8~32");
    i.on_key_event(Key::Char('x'));
    assert_eq!(i.msg(), "");
    type_into_input(&mut i, "longer");
    assert!(i.validate());
    assert_eq!(i.msg(), "");
}

#[test]
fn input_width_adds_label_and_content() {
    let mut i = Input::new().with_label("url: ").with_active();
    type_into_input(&mut i, "ab");
    assert_eq!(i.width(), 7);
    i.set_content("宽");
    assert_eq!(i.width(), 7);
    assert_eq!(i.pos(), 1);
}

#[test]
fn form_short_password_fails() {
    let mut f = Form::new();
    type_into_form(&mut f, "example.com");
    f.on_key_event(Key::Down);
    type_into_form(&mut f, "alice");
    f.on_key_event(Key::Down);
    type_into_form(&mut f, "short");
    f.on_key_event(Key::Down);
    type_into_form(&mut f, "short");
    assert!(!f.validate());
    assert_eq!(f.inputs().2.msg(), "The length is required be 8~32");
}

#[test]
fn form_matching_passwords_pass() {
    let mut f = Form::new();
    type_into_form(&mut f, "example.com");
    f.on_key_event(Key::Tab);
    type_into_form(&mut f, "alice");
    f.on_key_event(Key::Ctrl('j'));
    type_into_form(&mut f, "goodpass1");
    f.on_key_event(Key::Down);
    type_into_form(&mut f, "goodpass1");
    assert!(f.validate());
    assert_eq!(f.url(), "example.com");
    assert_eq!(f.username(), "alice");
    assert_eq!(f.password(), "goodpass1");
}

#[test]
fn form_mismatch_marks_only_confirm() {
    let mut f = Form::new();
    type_into_form(&mut f, "example.com");
    f.on_key_event(Key::Down);
    type_into_form(&mut f, "alice");
    f.on_key_event(Key::Down);
    type_into_form(&mut f, "goodpass1");
    f.on_key_event(Key::Down);
    type_into_form(&mut f, "goodpass2");
    assert!(!f.validate());
    let (u, n, p, c) = f.inputs();
    assert_eq!(u.msg(), "");
    assert_eq!(n.msg(), "");
    assert_eq!(p.msg(), "");
    assert_eq!(c.msg(), "Not match");
}

#[test]
fn form_focus_cycles_both_ways() {
    let mut f = Form::new();
    assert_eq!(f.mode(), FormMode::Url);
    f.on_key_event(Key::Up);
    assert_eq!(f.mode(), FormMode::Confirm);
    assert!(f.inputs().3.is_active());
    assert!(!f.inputs().0.is_active());
    f.on_key_event(Key::Down);
    assert_eq!(f.mode(), FormMode::Url);
    f.on_key_event(Key::Ctrl('x'));
    assert!(!f.inputs().2.is_masked());
    assert!(!f.inputs().3.is_masked());
}

#[test]
fn form_load_account_fills_fields() {
    let mut f = Form::new();
    let a = account(4, "site.org", "bob");
    let p = Pwd { id: 1, aid: 4, password: "pw12345678".to_string(), created: 5 };
    f.load_account(&a, Some(&p));
    assert_eq!(f.url(), "site.org");
    assert_eq!(f.username(), "bob");
    assert_eq!(f.password(), "pw12345678");
    assert_eq!(f.inputs().3.content(), "");
}

fn three_accounts() -> Vec<Account> {
    vec![account(1, "github.com", "x"), account(2, "gitlab.com", "y"), account(3, "example.org", "z")]
}

fn visible_urls(v: &AccountVec) -> Vec<String> {
    let mut it = v.iter();
    let mut out = vec![];
    while let Some(a) = it.next() {
        out.push(a.url.clone());
    }
    out
}

#[test]
fn filter_matches_url_or_username() {
    let mut v = AccountVec::new(three_accounts());
    v.filter("git");
    assert_eq!(visible_urls(&v), vec!["github.com", "gitlab.com"]);
    v.filter("z");
    assert_eq!(visible_urls(&v), vec!["example.org"]);
    v.filter("");
    assert_eq!(visible_urls(&v), vec!["github.com", "gitlab.com", "example.org"]);
    v.filter("Git");
    assert_eq!(visible_urls(&v).len(), 0);
}

#[test]
fn index_finds_visible_position_by_id() {
    let mut v = AccountVec::new(three_accounts());
    assert_eq!(v.index(3), Some(2));
    v.filter("org");
    assert_eq!(v.index(3), Some(0));
    assert_eq!(v.index(1), None);
    assert_eq!(v.index(9), None);
    assert_eq!(v.get(0).unwrap().id, 3);
    assert!(v.get(1).is_none());
}

#[test]
fn table_navigation_wraps() {
    let mut t = AccountTable::new();
    t.load(three_accounts());
    t.select_by_aid(3);
    assert_eq!(t.selection(), Some(2));
    t.on_key_event(Key::Char('j'));
    assert_eq!(t.selection(), Some(0));
    t.on_key_event(Key::Up);
    assert_eq!(t.selection(), Some(2));
    t.on_key_event(Key::Down);
    t.on_key_event(Key::Down);
    assert_eq!(t.selection(), Some(1));
    assert_eq!(t.selected().unwrap().url, "gitlab.com");
    assert!(t.is_marked());
}

#[test]
fn table_query_filters_and_selects_first() {
    let mut t = AccountTable::new();
    t.load(three_accounts());
    t.on_key_event(Key::Char('/'));
    assert!(t.is_querying());
    t.on_key_event(Key::Char('o'));
    t.on_key_event(Key::Char('r'));
    assert_eq!(t.selection(), Some(0));
    assert_eq!(visible_urls(t.items()), vec!["example.org"]);
    t.on_key_event(Key::Enter);
    assert!(!t.is_querying());
    assert_eq!(t.selected().unwrap().id, 3);
}

#[test]
fn confirm_accepts_yes_in_any_case() {
    let mut c = Confirm::new().with_content("To delete?");
    for ch in "YeS".chars() {
        c.on_key_event(Key::Char(ch));
    }
    assert!(c.confirm());
    assert_eq!(c.input().content(), "");
    for ch in "no".chars() {
        c.on_key_event(Key::Char(ch));
    }
    assert!(!c.confirm());
    assert!(!c.confirm());
    assert_eq!(c.content(), "To delete?");
}

#[test]
fn confirm_password_tab_and_validate() {
    let mut cp = ConfirmPassword::new().with_title("register");
    for ch in "hunter2pass".chars() {
        cp.on_key_event(Key::Char(ch));
    }
    cp.on_key_event(Key::Tab);
    for ch in "hunter2pasx".chars() {
        cp.on_key_event(Key::Char(ch));
    }
    assert!(!cp.validate());
    assert_eq!(cp.inputs().1.msg(), "Not match");
    cp.on_key_event(Key::Backspace);
    cp.on_key_event(Key::Char('s'));
    assert!(cp.validate());
    assert_eq!(cp.content(), "hunter2pass");
    assert_eq!(cp.title(), "register");
}

#[test]
fn account_text_and_widths() {
    let a = account(1234, "a.com", "bob");
    assert_eq!(a.to_string(), "1234 - a.com - bob");
    assert_eq!(a.id_len(), 4);
    assert_eq!(a.url_len(), 5);
    assert_eq!(a.username_len(), 3);
    assert_eq!(account(0, "", "").id_len(), 1);
}

#[test]
fn history_is_newest_first() {
    let mk = |id: u32, t: usize| Pwd { id, aid: 1, password: format!("p{t}"), created: t };
    let sorted = sort_newest_first(vec![mk(1, 10), mk(2, 30), mk(3, 20)]);
    let times: Vec<usize> = sorted.iter().map(|p| p.created).collect();
    assert_eq!(times, vec![30, 20, 10]);
    let same = sort_newest_first(vec![mk(1, 5), mk(2, 5)]);
    assert_eq!(same[0].id, 1);
    assert_eq!(same[1].id, 2);
}

#[test]
fn repo_history_ordering() {
    let conn = sqlite_conn(":memory:").unwrap();
    let cipher = AesCipher::from_slice(&[9u8; 32]).unwrap();
    let pwds = PwdRepo::new(&conn, &cipher);
    for (i, t) in [100usize, 300, 200].iter().enumerate() {
        pwds.add(&Pwd { id: 0, aid: 5, password: format!("pass{i}"), created: *t }).unwrap();
    }
    let got = pwds.query(5).unwrap();
    let times: Vec<usize> = got.iter().map(|p| p.created).collect();
    assert_eq!(times, vec![300, 200, 100]);
    assert_eq!(got[0].password, "pass1");
    assert!(pwds.query(6).unwrap().is_empty());
}

#[test]
fn repo_listing_fails_under_another_key() {
    let conn = sqlite_conn(":memory:").unwrap();
    let k1 = AesCipher::from_slice(&[1u8; 32]).unwrap();
    let k2 = AesCipher::from_slice(&[2u8; 32]).unwrap();
    AccountRepo::new(&conn, &k1).add(&account(0, "a.com", "bob")).unwrap();
    assert!(AccountRepo::new(&conn, &k2).all().is_err());
    let rows = vec![(1u32, vec![0u8; 40], vec![0u8; 40], 1usize, 1usize)];
    assert!(open_accounts(&k1, rows).is_err());
}

#[test]
fn end_to_end_vault() {
    let mut ks = KeyStore::new(None);
    ks.set_key(b"hunter2pass").unwrap();
    let key = ks.get_key(b"hunter2pass").unwrap();
    assert_eq!(key.len(), 32);

    let conn = sqlite_conn(":memory:").unwrap();
    let cipher = AesCipher::from_slice(&key).unwrap();
    let accounts = AccountRepo::new(&conn, &cipher);
    let pwds = PwdRepo::new(&conn, &cipher);

    let id = accounts
        .add(&Account { id: 0, url: "example.com".into(), username: "alice".into(), created: 1000, changed: 1000 })
        .unwrap();
    pwds.add(&Pwd { id: 0, aid: id, password: "p@ssw0rd1".into(), created: 1000 }).unwrap();
    let all = accounts.all().unwrap();
    assert_eq!(all.len(), 1);
    assert_eq!(all[0].url, "example.com");
    assert_eq!(all[0].username, "alice");
    let history = pwds.query(id).unwrap();
    assert_eq!(history.len(), 1);
    assert_eq!(history[0].password, "p@ssw0rd1");

    accounts
        .update(&Account { id, url: "example.com".into(), username: "alice".into(), created: 2000, changed: 2000 })
        .unwrap();
    pwds.add(&Pwd { id: 0, aid: id, password: "p@ssw0rd2".into(), created: 2000 }).unwrap();
    let history: Vec<String> = pwds.query(id).unwrap().into_iter().map(|p| p.password).collect();
    assert_eq!(history, vec!["p@ssw0rd2", "p@ssw0rd1"]);
    let all = accounts.all().unwrap();
    assert_eq!(all[0].created, 1000);
    assert_eq!(all[0].changed, 2000);

    accounts.delete(id).unwrap();
    pwds.delete(id).unwrap();
    assert!(accounts.all().unwrap().is_empty());
    assert!(pwds.query(id).unwrap().is_empty());
}

#[test]
fn auth_registers_then_unlocks() {
    let mut auth = Auth::build(None);
    assert_eq!(auth.mode(), AuthMode::Reg);
    for ch in "hunter2pass".chars() {
        auth.on_key_event(Key::Char(ch)).unwrap();
    }
    auth.on_key_event(Key::Tab).unwrap();
    for ch in "hunter2pass".chars() {
        auth.on_key_event(Key::Char(ch)).unwrap();
    }
    auth.on_key_event(Key::Enter).unwrap();
    assert_eq!(auth.mode(), AuthMode::Login);
    let file = auth.key_file_text().unwrap().to_string();

    let mut login = Auth::build(Some(file));
    assert_eq!(login.mode(), AuthMode::Login);
    for ch in "wrongpass".chars() {
        login.on_key_event(Key::Char(ch)).unwrap();
    }
    login.on_key_event(Key::Enter).unwrap();
    assert!(login.key().is_none());
    assert_eq!(login.login().msg(), "wrong password");
    for _ in 0..9 {
        login.on_key_event(Key::Backspace).unwrap();
    }
    for ch in "hunter2pass".chars() {
        login.on_key_event(Key::Char(ch)).unwrap();
    }
    login.on_key_event(Key::Enter).unwrap();
    let key = login.key().unwrap();
    assert_eq!(key.len(), 32);
    assert!(login.key().is_none());
    login.on_key_event(Key::Ctrl('c')).unwrap();
    assert!(login.quit());
}

#[test]
fn auth_short_passphrase_is_not_tried() {
    let mut auth = Auth::build(Some("00".to_string()));
    for ch in "short".chars() {
        auth.on_key_event(Key::Char(ch)).unwrap();
    }
    auth.on_key_event(Key::Enter).unwrap();
    assert!(auth.key().is_none());
    assert_eq!(auth.login().msg(), "The length is required be 8~32");
}

fn app_type(app: &mut App, text: &str) {
    for c in text.chars() {
        app.on_key_event(Key::Char(c)).unwrap();
    }
}

#[test]
fn app_add_view_edit_delete() {
    let mut app = App::build(":memory:", &[5u8; 32]).unwrap();
    assert_eq!(app.mode(), AppMode::Table);
    app.on_key_event(Key::Char('a')).unwrap();
    assert_eq!(app.mode(), AppMode::Add);
    app_type(&mut app, "example.com");
    app.on_key_event(Key::Down).unwrap();
    app_type(&mut app, "alice");
    app.on_key_event(Key::Down).unwrap();
    app_type(&mut app, "p@ssw0rd1");
    app.on_key_event(Key::Down).unwrap();
    app_type(&mut app, "p@ssw0rd1");
    app.on_key_event(Key::Enter).unwrap();
    assert_eq!(app.mode(), AppMode::Table);
    assert_eq!(app.account_table().items().visible_len(), 1);
    assert_eq!(app.account_table().selection(), Some(0));

    let copied = app.on_key_event(Key::Char('c')).unwrap();
    assert_eq!(copied.as_deref(), Some("p@ssw0rd1"));

    app.on_key_event(Key::Enter).unwrap();
    assert_eq!(app.mode(), AppMode::View);
    assert_eq!(app.view().account().unwrap().url, "example.com");
    app.on_key_event(Key::Char('j')).unwrap();
    let copied = app.on_key_event(Key::Char('c')).unwrap();
    assert_eq!(copied.as_deref(), Some("alice"));
    app.on_key_event(Key::Esc).unwrap();
    assert_eq!(app.mode(), AppMode::Table);

    app.on_key_event(Key::Char('e')).unwrap();
    assert_eq!(app.mode(), AppMode::Edit);
    assert_eq!(app.form().password(), "p@ssw0rd1");
    assert_eq!(app.form().mode(), FormMode::Confirm);
    app.on_key_event(Key::Up).unwrap();
    assert_eq!(app.form().mode(), FormMode::Password);
    for _ in 0..9 {
        app.on_key_event(Key::Right).unwrap();
    }
    app.on_key_event(Key::Backspace).unwrap();
    app_type(&mut app, "2");
    app.on_key_event(Key::Down).unwrap();
    app_type(&mut app, "p@ssw0rd2");
    let before = current_millis();
    while current_millis() == before {}
    app.on_key_event(Key::Enter).unwrap();
    assert_eq!(app.mode(), AppMode::Table);
    app.on_key_event(Key::Enter).unwrap();
    let history: Vec<String> = app.view().pwds().unwrap().iter().map(|p| p.password.clone()).collect();
    assert_eq!(history, vec!["p@ssw0rd2", "p@ssw0rd1"]);
    app.on_key_event(Key::Char('q')).unwrap();

    app.on_key_event(Key::Char('d')).unwrap();
    assert_eq!(app.mode(), AppMode::Del);
    app_type(&mut app, "YES");
    app.on_key_event(Key::Enter).unwrap();
    assert_eq!(app.mode(), AppMode::Table);
    assert_eq!(app.account_table().items().visible_len(), 0);

    app.on_key_event(Key::Ctrl('c')).unwrap();
    assert!(app.quit());
}

#[test]
fn app_rejects_wrong_key_length() {
    assert!(matches!(App::build(":memory:", &[1u8; 16]), Err(TecError::InvalidLength(_))));
}

#[test]
fn view_copies_selected_line() {
    let mut v = View::new();
    assert!(v.on_key_event(Key::Char('c')).is_none());
    v.load_account(account(1, "u.org", "me"));
    v.load_pwds(vec![Pwd { id: 1, aid: 1, password: "now".into(), created: 2 }]);
    assert_eq!(v.on_key_event(Key::Char('c')).as_deref(), Some("u.org"));
    assert!(v.is_marked());
    v.on_key_event(Key::Up);
    assert_eq!(v.selected(), Some(4));
    v.on_key_event(Key::Down);
    v.on_key_event(Key::Down);
    v.on_key_event(Key::Down);
    assert_eq!(v.on_key_event(Key::Char('c')).as_deref(), Some("now"));
    v.on_key_event(Key::Down);
    let created = v.on_key_event(Key::Char('c')).unwrap();
    assert!(created.starts_with("1970-01-01"));
    assert!(v.is_masked());
    v.on_key_event(Key::Char('x'));
    assert!(!v.is_masked());
}

#[test]
fn dates_are_written_in_utc() {
    assert!(millis2string(0).starts_with("1970-01-01 0:00:00"));
    assert!(millis2string(86_400_000).starts_with("1970-01-02"));
}

#[test]
fn numerals_parse_like_std() {
    assert_eq!(parse_usize("0"), Some(0));
    assert_eq!(parse_usize("1700000000000"), Some(1_700_000_000_000));
    assert_eq!(parse_usize("+42"), Some(42));
    assert_eq!(parse_usize(""), None);
    assert_eq!(parse_usize("+"), None);
    assert_eq!(parse_usize("-1"), None);
    assert_eq!(parse_usize("12a"), None);
    assert_eq!(parse_usize("18446744073709551615"), Some(usize::MAX));
    assert_eq!(parse_usize("18446744073709551616"), None);
}

fn feed_all(lines: &[&str]) -> Vec<PassEntry> {
    let mut p = PassParser::new();
    let mut out = vec![];
    for l in lines {
        if let Some(e) = p.feed(l) {
            out.push(e);
        }
    }
    out
}

#[test]
fn pass_export_entries() {
    let entries = feed_all(&[
        "Name: github ",
        "  s3cret ",
        "login: alice",
        "url: https://github.com",
        "",
        "",
        "Name: mail",
        "pw2",
        "user: nobody",
        "",
        "",
    ]);
    assert_eq!(entries.len(), 2);
    assert_eq!(entries[0].name, "github");
    assert_eq!(entries[0].pwd, "s3cret");
    assert_eq!(entries[0].login, "alice");
    assert_eq!(entries[0].account_url(), "https://github.com");
    assert_eq!(entries[1].login, "");
    assert_eq!(entries[1].url, "");
    assert_eq!(entries[1].account_url(), "mail");
}

#[test]
fn pass_import_stores_entries() {
    let conn = sqlite_conn(":memory:").unwrap();
    let cipher = AesCipher::from_slice(&[4u8; 32]).unwrap();
    let accounts = AccountRepo::new(&conn, &cipher);
    let pwds = PwdRepo::new(&conn, &cipher);
    let entries = feed_all(&["Name: mail", "pw2", "login: bob", "", ""]);
    let aid = add_account(&accounts, &pwds, &entries[0], 77).unwrap();
    let all = accounts.all().unwrap();
    assert_eq!(all[0].url, "mail");
    assert_eq!(all[0].username, "bob");
    assert_eq!(all[0].created, 77);
    assert_eq!(pwds.query(aid).unwrap()[0].password, "pw2");
}

#[test]
fn firefox_record_import() {
    let conn = sqlite_conn(":memory:").unwrap();
    let cipher = AesCipher::from_slice(&[4u8; 32]).unwrap();
    let accounts = AccountRepo::new(&conn, &cipher);
    let pwds = PwdRepo::new(&conn, &cipher);
    let rec: Vec<String> = ["https://a.org", "ann", "pw", "", "", "{guid}", "1000", "1500", "2000"]
        .iter()
        .map(|s| s.to_string())
        .collect();
    let aid = import_firefox_record(&accounts, &pwds, &rec).unwrap();
    let all = accounts.all().unwrap();
    assert_eq!(all[0].url, "https://a.org");
    assert_eq!(all[0].created, 1000);
    assert_eq!(all[0].changed, 2000);
    assert_eq!(pwds.query(aid).unwrap()[0].password, "pw");
    let short: Vec<String> = vec!["x".to_string()];
    assert!(matches!(import_firefox_record(&accounts, &pwds, &short), Err(TecError::InvalidInput)));
    let mut bad = rec.clone();
    bad[6] = "soon".to_string();
    assert!(matches!(import_firefox_record(&accounts, &pwds, &bad), Err(TecError::ParseIntError)));
}

#[test]
fn system_times_convert() {
    let t = millis2time(1234);
    assert_eq!(time2millis(t), Some(1234));
    assert!(time2string(t).unwrap().starts_with("1970-01-01"));
    let before = std::time::UNIX_EPOCH - std::time::Duration::from_millis(5);
    assert_eq!(time2millis(before), None);
    assert!(current_millis() > 1_600_000_000_000);
}

#[test]
fn input_wrapping_math() {
    let mut i = Input::new().with_label("pw: ").with_active();
    type_into_input(&mut i, "abcdefg");
    assert_eq!(i.width(), 11);
    assert_eq!(i.cursor_position(5), (1, 2));
    assert_eq!(i.height(5), 3);
    assert_eq!(i.height(11), 1);
    assert_eq!(i.height(1), 11);
    i.on_key_event(Key::Left);
    assert_eq!(i.cursor_position(20), (10, 0));
}

#[test]
fn app_delete_needs_yes_and_enter_without_selection_is_quiet() {
    let mut app = App::build(":memory:", &[6u8; 32]).unwrap();
    app.on_key_event(Key::Enter).unwrap();
    assert_eq!(app.mode(), AppMode::Table);
    assert!(app.view().account().is_none());
    app.on_key_event(Key::Char('a')).unwrap();
    app_type(&mut app, "site.net");
    app.on_key_event(Key::Down).unwrap();
    app_type(&mut app, "bob");
    app.on_key_event(Key::Down).unwrap();
    app_type(&mut app, "longpass1");
    app.on_key_event(Key::Down).unwrap();
    app_type(&mut app, "longpass1");
    app.on_key_event(Key::Enter).unwrap();
    app.on_key_event(Key::Char('d')).unwrap();
    app_type(&mut app, "no");
    assert_eq!(app.confirm().input().content(), "no");
    app.on_key_event(Key::Enter).unwrap();
    assert_eq!(app.mode(), AppMode::Table);
    assert_eq!(app.confirm().input().content(), "");
    assert_eq!(app.account_table().items().visible_len(), 1);
    app.on_key_event(Key::Char('d')).unwrap();
    app.on_key_event(Key::Esc).unwrap();
    assert_eq!(app.mode(), AppMode::Table);
    assert_eq!(app.account_table().items().visible_len(), 1);
}

#[test]
fn pass_fields_trim_unicode_white_space() {
    let entries = feed_all(&["Name: \u{3000}mail\u{2003}", "\tpw\u{85}", "", ""]);
    assert_eq!(entries[0].name, "mail");
    assert_eq!(entries[0].pwd, "pw");
}
