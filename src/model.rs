//! The stored records: accounts and the passwords each one has had.
use vstd::prelude::*;

use crate::fmt::{decimal, push_decimal};
use crate::text::{display_width, str_width};

verus! {

/// One set of credentials. An `id` of 0 stands for an account not stored yet.
#[derive(Debug, Default, Clone)]
pub struct Account {
    pub id: u32,
    pub url: String,
    pub username: String,
    /// Milliseconds since the Unix epoch.
    pub created: usize,
    /// Milliseconds since the Unix epoch.
    pub changed: usize,
}

/// One password that an account had, from the moment `created` on.
#[derive(Debug, Default, Clone)]
pub struct Pwd {
    pub id: u32,
    /// The account it belongs to.
    pub aid: u32,
    pub password: String,
    /// Milliseconds since the Unix epoch.
    pub created: usize,
}

/// `"<id> - <url> - <username>"`.
pub open spec fn account_line(a: Account) -> Seq<char> {
    decimal(a.id as nat) + " - "@ + a.url@ + " - "@ + a.username@
}

/// A width cut to its lowest 16 bits, as a terminal layout takes it.
pub open spec fn cut16(n: nat) -> u16 {
    (n % 0x10000) as u16
}

impl Account {
    /// A copy with equal fields.
    pub fn cloned(&self) -> (r: Account)
        ensures
            r == *self,
    {
        Account {
            id: self.id,
            url: self.url.clone(),
            username: self.username.clone(),
            created: self.created,
            changed: self.changed,
        }
    }

    pub fn to_string(&self) -> (r: String)
        ensures
            r@ == account_line(*self),
    {
        let mut s = String::new();
        push_decimal(&mut s, self.id as u64);
        s.append(" - ");
        s.append(self.url.as_str());
        s.append(" - ");
        s.append(self.username.as_str());
        assert(s@ =~= account_line(*self));
        s
    }

    pub fn id(&self) -> (r: u32)
        ensures
            r == self.id,
    {
        self.id
    }

    pub fn url(&self) -> (r: &str)
        ensures
            r@ == self.url@,
    {
        self.url.as_str()
    }

    pub fn username(&self) -> (r: &str)
        ensures
            r@ == self.username@,
    {
        self.username.as_str()
    }

    /// The columns that the decimal id takes: one for each digit.
    pub fn id_len(&self) -> (r: u16)
        ensures
            r as nat == decimal(self.id as nat).len(),
    {
        let mut s = String::new();
        push_decimal(&mut s, self.id as u64);
        proof {
            lemma_decimal_len_u32(self.id as nat);
        }
        s.as_str().unicode_len() as u16
    }

    pub fn url_len(&self) -> (r: u16)
        ensures
            r == cut16(display_width(self.url@)),
    {
        (str_width(self.url.as_str()) % 0x10000) as u16
    }

    pub fn username_len(&self) -> (r: u16)
        ensures
            r == cut16(display_width(self.username@)),
    {
        (str_width(self.username.as_str()) % 0x10000) as u16
    }
}

/// A number below 10^k has at most k digits.
proof fn lemma_decimal_len_bound(n: nat, k: nat, p: nat)
    requires
        n < p,
        k >= 1,
        p == pow10(k),
    ensures
        decimal(n).len() <= k,
    decreases n,
{
    if n >= 10 {
        assert(k >= 2) by {
            if k == 1 {
                assert(pow10(1) == 10 * pow10(0));
            }
        }
        assert(pow10(k) == 10 * pow10((k - 1) as nat));
        lemma_decimal_len_bound(n / 10, (k - 1) as nat, pow10((k - 1) as nat));
    }
}

spec fn pow10(k: nat) -> nat
    decreases k,
{
    if k == 0 {
        1
    } else {
        10 * pow10((k - 1) as nat)
    }
}

proof fn lemma_decimal_len_u32(n: nat)
    requires
        n <= u32::MAX,
    ensures
        decimal(n).len() <= 10,
{
    reveal_with_fuel(pow10, 11);
    assert(pow10(10) == 10000000000);
    lemma_decimal_len_bound(n, 10, pow10(10));
}

} // verus!
