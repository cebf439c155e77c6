//! Types whose standard traits come from `derive`, next to a few that
//! implement them by hand: a masked password, an equality that ignores a
//! cache, a colour rendered in hex and a connection that takes a fresh id
//! when duplicated.

use vstd::prelude::*;
use vstd::std_specs::cmp::PartialEqSpecImpl;
use crate::text::{push_char, str_eq};

verus! {

/// A person; `Clone` copies both fields.
#[derive(Debug, Clone)]
pub struct Person {
    pub name: String,
    pub age: u32,
}

/// A score ordered by points, then by bonus.
#[derive(Debug, Clone, PartialEq, Eq, PartialOrd, Ord)]
pub struct Score {
    pub points: u32,
    pub bonus: u32,
}

/// Priorities ordered as declared: `Low < Medium < High`.
#[derive(Debug, Clone, PartialEq, Eq, PartialOrd, Ord)]
pub enum Priority {
    Low,
    Medium,
    High,
}

/// A user id qualified by its domain, usable as a hash key.
#[derive(Debug, Clone, PartialEq, Eq, Hash)]
pub struct UserId {
    pub id: u64,
    pub domain: String,
}

/// Settings whose default has every field empty or zero.
#[derive(Debug, Default)]
pub struct Config {
    pub host: String,
    pub port: u16,
    pub debug: bool,
    pub max_connections: u32,
    pub tags: Vec<String>,
}

/// Log levels; the default is `Info`.
#[derive(Debug, Default)]
pub enum LogLevel {
    Trace,
    Debug,
    #[default]
    Info,
    Warn,
    Error,
}

/// A password that never shows its contents.
pub struct Password(pub String);

impl Password {
    /// The debug rendering, which masks the contents.
    pub fn debug_text(&self) -> (r: String)
        ensures
            r@ == "Password(****)"@,
    {
        String::from_str("Password(****)")
    }
}

/// A user whose cached field takes no part in equality.
pub struct User {
    pub id: u64,
    pub name: String,
    pub cache: Option<String>,
}

impl PartialEq for User {
    fn eq(&self, other: &Self) -> (r: bool) {
        self.id == other.id && str_eq(self.name.as_str(), other.name.as_str())
    }
}

impl PartialEqSpecImpl for User {
    open spec fn obeys_eq_spec() -> bool {
        true
    }

    open spec fn eq_spec(&self, other: &Self) -> bool {
        self.id == other.id && self.name@ == other.name@
    }
}

impl Eq for User {}

/// An RGB colour.
#[derive(Debug)]
pub struct Color {
    pub r: u8,
    pub g: u8,
    pub b: u8,
}

/// The upper-case hexadecimal digit for `d < 16`.
pub open spec fn hex_digit(d: nat) -> char {
    if d < 10 {
        (48 + d) as char
    } else {
        (55 + d) as char
    }
}

/// Two upper-case hexadecimal digits for a byte.
pub open spec fn hex_byte(b: u8) -> Seq<char> {
    seq![hex_digit(b as nat / 16), hex_digit(b as nat % 16)]
}

fn hex_char(d: u8) -> (c: char)
    requires
        d < 16,
    ensures
        c == hex_digit(d as nat),
{
    if d < 10 {
        (48u8 + d) as char
    } else {
        (55u8 + d) as char
    }
}

impl Color {
    /// "#RRGGBB" in upper-case hexadecimal.
    pub fn hex(&self) -> (s: String)
        ensures
            s@ == seq!['#'] + hex_byte(self.r) + hex_byte(self.g) + hex_byte(self.b),
    {
        let mut s = String::new();
        push_char(&mut s, '#');
        push_char(&mut s, hex_char(self.r / 16));
        push_char(&mut s, hex_char(self.r % 16));
        push_char(&mut s, hex_char(self.g / 16));
        push_char(&mut s, hex_char(self.g % 16));
        push_char(&mut s, hex_char(self.b / 16));
        push_char(&mut s, hex_char(self.b % 16));
        assert(s@ =~= seq!['#'] + hex_byte(self.r) + hex_byte(self.g) + hex_byte(self.b));
        s
    }
}

/// A pooled connection; each copy gets its own id.
#[derive(Debug)]
pub struct Connection {
    pub url: String,
    pub pool_size: u32,
    pub connection_id: u64,
}

impl Connection {
    /// A copy of this connection under the id `connection_id`.
    pub fn duplicate(&self, connection_id: u64) -> (c: Connection)
        ensures
            c.url@ == self.url@,
            c.pool_size == self.pool_size,
            c.connection_id == connection_id,
    {
        Connection { url: String::from_str(self.url.as_str()), pool_size: self.pool_size, connection_id }
    }
}

/// The classes a character can take.
#[derive(Debug, Clone, Copy, PartialEq, Eq, Hash)]
pub enum CharacterClass {
    Warrior,
    Mage,
    Rogue,
    Healer,
}

} // verus!
