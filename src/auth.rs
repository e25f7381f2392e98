//! The unlock flow: register a passphrase on first run, then unlock the
//! master key with it.
use vstd::prelude::*;
use vstd::utf8::encode_utf8;

use crate::cipher::{KEY_LEN, MAX_PWD_LEN, NONCE_LEN, SALT_LEN, key_frame, open_key_frame};
use crate::confirm::{ConfirmPassword, ConfirmPasswordState, confirm_password_step, confirm_password_valid, confirm_password_validated};
use crate::error::TecResult;
use crate::form::{typed_into, validated};
use crate::input::{Input, InputState, within_bounds};
use crate::keystore::KeyStore;
use crate::key::Key;
use crate::text::utf8_bytes;

verus! {

/// The two stages of the unlock flow.
#[derive(Clone, Copy, Debug, PartialEq, Eq, Structural)]
pub enum AuthMode {
    /// No key exists yet: a passphrase is chosen and typed twice.
    Reg,
    /// A key exists: the passphrase unlocks it.
    Login,
}

/// The message shown when the passphrase does not unlock the key.
pub open spec fn wrong_password_msg() -> Seq<char> {
    "wrong password"@
}

/// The unlock flow.
pub struct Auth {
    mode: AuthMode,
    key_store: KeyStore,
    quiting: bool,
    key: Option<Vec<u8>>,
    login: Input,
    reg: ConfirmPassword,
}

impl Auth {
    pub closed spec fn mode_spec(&self) -> AuthMode {
        self.mode
    }

    pub closed spec fn quitting(&self) -> bool {
        self.quiting
    }

    pub closed spec fn unlocked(&self) -> Option<Seq<u8>> {
        match self.key {
            Some(k) => Some(k@),
            None => None,
        }
    }

    pub closed spec fn login_state(&self) -> InputState {
        self.login@
    }

    pub closed spec fn reg_state(&self) -> ConfirmPasswordState {
        self.reg@
    }

    pub closed spec fn key_file(&self) -> Option<Seq<char>> {
        self.key_store.file()
    }

    /// The flow over the key file text read, or `None` where there is no key
    /// file: registration without a file, unlocking with one.
    pub fn build(stored: Option<String>) -> (r: Self)
        ensures
            r.mode_spec() == if stored is Some { AuthMode::Login } else { AuthMode::Reg },
            r.key_file() == match stored {
                Some(s) => Some(s@),
                None => None::<Seq<char>>,
            },
            !r.quitting(),
            r.unlocked() is None,
            r.login_state().masked && r.login_state().active,
            r.login_state().min == 8 && r.login_state().max == 32,
            r.login_state().content.len() == 0,
            r.reg_state().password.active,
    {
        let key_store = KeyStore::new(stored);
        let mode = if key_store.has_key() {
            AuthMode::Login
        } else {
            AuthMode::Reg
        };
        let mut auth = Auth {
            key_store,
            mode: AuthMode::Login,
            quiting: false,
            key: None,
            login: Input::new().with_mask().with_label("password: ").with_min(8).with_max(32).with_active(),
            reg: ConfirmPassword::new(),
        };
        auth.change_mode(mode);
        auth
    }

    /// Whether the quit key was pressed.
    pub fn quit(&self) -> (r: bool)
        ensures
            r == self.quitting(),
    {
        self.quiting
    }

    /// Hands the unlocked master key over, once.
    pub fn key(&mut self) -> (r: Option<Vec<u8>>)
        ensures
            match r {
                Some(k) => old(self).unlocked() == Some(k@),
                None => old(self).unlocked() is None,
            },
            final(self).unlocked() is None,
            final(self).mode_spec() == old(self).mode_spec(),
            final(self).key_file() == old(self).key_file(),
    {
        self.key.take()
    }

    /// The stage of the flow.
    pub fn mode(&self) -> (r: AuthMode)
        ensures
            r == self.mode_spec(),
    {
        self.mode
    }

    /// The key file text to write, if any.
    pub fn key_file_text(&self) -> (r: Option<&str>)
        ensures
            match self.key_file() {
                Some(t) => r matches Some(s) && s@ == t,
                None => r is None,
            },
    {
        self.key_store.stored()
    }

    pub fn login(&self) -> (r: &Input)
        ensures
            r@ == self.login_state(),
    {
        &self.login
    }

    pub fn reg(&self) -> (r: &ConfirmPassword)
        ensures
            r@ == self.reg_state(),
    {
        &self.reg
    }

    /// Handles one key. Control-c asks to quit. Unlocking: the key edits the
    /// passphrase; enter checks its length and tries it on the key file, which
    /// either unlocks the master key or leaves the "wrong password" message.
    /// Registering: the key edits the two passphrase fields; enter checks them
    /// and seals a new master key under the passphrase, and unlocking follows.
    pub fn on_key_event(&mut self, key: Key) -> (r: TecResult<()>)
        ensures
            key == Key::Ctrl('c') ==> final(self).quitting() && r is Ok
                && final(self).mode_spec() == old(self).mode_spec()
                && final(self).unlocked() == old(self).unlocked()
                && final(self).key_file() == old(self).key_file(),
            key != Key::Ctrl('c') ==> final(self).quitting() == old(self).quitting(),
            key != Key::Ctrl('c') && old(self).mode_spec() == AuthMode::Login ==> ({
                let typed = typed_into(old(self).login_state(), key);
                let pwd = encode_utf8(typed.content);
                &&& r is Ok
                &&& final(self).mode_spec() == AuthMode::Login
                &&& final(self).key_file() == old(self).key_file()
                &&& key == Key::Enter && within_bounds(typed) && old(self).key_file() is Some
                    && open_key_frame(pwd, old(self).key_file()->0) is Some
                    ==> final(self).unlocked() == open_key_frame(pwd, old(self).key_file()->0)
                        && final(self).login_state() == (InputState { msg: Seq::empty(), ..typed })
                &&& key == Key::Enter && within_bounds(typed) && (old(self).key_file() is None
                    || open_key_frame(pwd, old(self).key_file()->0) is None)
                    ==> final(self).unlocked() == old(self).unlocked()
                        && final(self).login_state() == (InputState { msg: wrong_password_msg(), ..typed })
                &&& key == Key::Enter && !within_bounds(typed) ==> final(self).unlocked() == old(self).unlocked()
                    && final(self).login_state() == validated(typed)
                &&& key != Key::Enter ==> final(self).login_state() == typed
                    && final(self).unlocked() == old(self).unlocked()
            }),
            key != Key::Ctrl('c') && old(self).mode_spec() == AuthMode::Reg ==> ({
                let typed = confirm_password_step(old(self).reg_state(), key);
                let pwd = encode_utf8(typed.password.content);
                &&& final(self).unlocked() == old(self).unlocked()
                &&& key == Key::Enter && confirm_password_valid(typed) && pwd.len() <= MAX_PWD_LEN
                    ==> r is Ok && final(self).mode_spec() == AuthMode::Login
                        && exists|salt: Seq<u8>, nonce: Seq<u8>, k: Seq<u8>|
                            salt.len() == SALT_LEN && nonce.len() == NONCE_LEN && k.len() == KEY_LEN
                            && final(self).key_file() == Some(#[trigger] key_frame(pwd, salt, nonce, k))
                &&& !(key == Key::Enter && confirm_password_valid(typed))
                    ==> r is Ok && final(self).mode_spec() == AuthMode::Reg
                        && final(self).key_file() == old(self).key_file()
                        && final(self).reg_state() == if key == Key::Enter {
                            confirm_password_validated(typed)
                        } else {
                            typed
                        }
            }),
    {
        match key {
            Key::Ctrl('c') => {
                self.quiting = true;
                return Ok(());
            },
            _ => {},
        }
        match self.mode {
            AuthMode::Login => self.login_on_key_event(key),
            AuthMode::Reg => self.reg_on_key_event(key),
        }
    }

    fn login_on_key_event(&mut self, key: Key) -> (r: TecResult<()>)
        ensures
            ({
                let typed = typed_into(old(self).login_state(), key);
                let pwd = encode_utf8(typed.content);
                &&& r is Ok
                &&& final(self).mode_spec() == old(self).mode_spec()
                &&& final(self).quitting() == old(self).quitting()
                &&& final(self).key_file() == old(self).key_file()
                &&& key == Key::Enter && within_bounds(typed) && old(self).key_file() is Some
                    && open_key_frame(pwd, old(self).key_file()->0) is Some
                    ==> final(self).unlocked() == open_key_frame(pwd, old(self).key_file()->0)
                        && final(self).login_state() == (InputState { msg: Seq::empty(), ..typed })
                &&& key == Key::Enter && within_bounds(typed) && (old(self).key_file() is None
                    || open_key_frame(pwd, old(self).key_file()->0) is None)
                    ==> final(self).unlocked() == old(self).unlocked()
                        && final(self).login_state() == (InputState { msg: wrong_password_msg(), ..typed })
                &&& key == Key::Enter && !within_bounds(typed) ==> final(self).unlocked() == old(self).unlocked()
                    && final(self).login_state() == validated(typed)
                &&& key != Key::Enter ==> final(self).login_state() == typed
                    && final(self).unlocked() == old(self).unlocked()
            }),
    {
        let is_enter = match key {
            Key::Enter => true,
            _ => false,
        };
        self.login.on_key_event(key);
        if is_enter {
            if self.login.validate() {
                let pwd = utf8_bytes(self.login.content());
                match self.key_store.get_key(pwd.as_slice()) {
                    Ok(k) => {
                        self.key = Some(k);
                    },
                    Err(_) => {
                        self.login.set_msg("wrong password");
                    },
                }
            }
        }
        Ok(())
    }

    fn reg_on_key_event(&mut self, key: Key) -> (r: TecResult<()>)
        ensures
            ({
                let typed = confirm_password_step(old(self).reg_state(), key);
                let pwd = encode_utf8(typed.password.content);
                &&& final(self).unlocked() == old(self).unlocked()
                &&& final(self).quitting() == old(self).quitting()
                &&& key == Key::Enter && confirm_password_valid(typed) && pwd.len() <= MAX_PWD_LEN
                    ==> r is Ok && final(self).mode_spec() == AuthMode::Login
                        && exists|salt: Seq<u8>, nonce: Seq<u8>, k: Seq<u8>|
                            salt.len() == SALT_LEN && nonce.len() == NONCE_LEN && k.len() == KEY_LEN
                            && final(self).key_file() == Some(#[trigger] key_frame(pwd, salt, nonce, k))
                &&& !(key == Key::Enter && confirm_password_valid(typed))
                    ==> r is Ok && final(self).mode_spec() == old(self).mode_spec()
                        && final(self).key_file() == old(self).key_file()
                        && final(self).reg_state() == if key == Key::Enter {
                            confirm_password_validated(typed)
                        } else {
                            typed
                        }
            }),
    {
        let is_enter = match key {
            Key::Enter => true,
            _ => false,
        };
        self.reg.on_key_event(key);
        if is_enter {
            if self.reg.validate() {
                let pwd = utf8_bytes(self.reg.content());
                self.key_store.set_key(pwd.as_slice())?;
                self.change_mode(AuthMode::Login);
            }
        }
        Ok(())
    }

    fn change_mode(&mut self, mode: AuthMode)
        ensures
            final(self).mode_spec() == mode,
            final(self).quitting() == old(self).quitting(),
            final(self).unlocked() == old(self).unlocked(),
            final(self).key_file() == old(self).key_file(),
            final(self).login_state() == old(self).login_state(),
            final(self).reg_state() == old(self).reg_state(),
    {
        self.mode = mode;
    }
}

} // verus!
