//! Self-description of record types (their name, their field names and a
//! multi-line rendering of their values) and a settings type with a
//! one-line rendering.

use vstd::prelude::*;
use crate::text::{concat2, debug_string, debug_text, decimal, join, join_seq, u64_to_string, views};

verus! {

/// A type that can name itself and its fields and render its values.
pub trait Describe {
    /// A multi-line rendering: the type's name, one line per field, a closing brace.
    fn describe(&self) -> String;

    /// The names of the fields, in declaration order.
    fn field_names() -> Vec<&'static str>;

    /// The type's name.
    fn struct_name() -> &'static str;
}

/// A user with a name, an age and an e-mail address.
#[derive(Debug)]
pub struct User {
    pub name: String,
    pub age: u32,
    pub email: String,
}

/// The lines of a user's description, before they are joined.
pub open spec fn user_description_lines(name: Seq<char>, age: nat, email: Seq<char>) -> Seq<Seq<char>> {
    seq![
        "User {"@,
        "  name: "@ + debug_text(name),
        "  age: "@ + decimal(age),
        "  email: "@ + debug_text(email),
        "}"@,
    ]
}

impl Describe for User {
    /// The lines `User {`, `  name: "<name>"`, `  age: <age>`,
    /// `  email: "<email>"` and `}`, joined by newlines.
    fn describe(&self) -> (r: String)
        ensures
            r@ == join_seq(user_description_lines(self.name@, self.age as nat, self.email@), "\n"@),
    {
        let mut parts: Vec<String> = Vec::new();
        parts.push(String::from_str("User {"));
        let name = debug_string(self.name.as_str());
        parts.push(concat2("  name: ", name.as_str()));
        let age = u64_to_string(self.age as u64);
        parts.push(concat2("  age: ", age.as_str()));
        let email = debug_string(self.email.as_str());
        parts.push(concat2("  email: ", email.as_str()));
        parts.push(String::from_str("}"));
        assert(views(parts@) =~= user_description_lines(self.name@, self.age as nat, self.email@));
        join(&parts, "\n")
    }

    /// `name`, `age` and `email`.
    fn field_names() -> (r: Vec<&'static str>)
        ensures
            r@.map_values(|s: &str| s@) == seq!["name"@, "age"@, "email"@],
    {
        let r = vec!["name", "age", "email"];
        assert(r@.map_values(|s: &str| s@) =~= seq!["name"@, "age"@, "email"@]);
        r
    }

    /// `User`.
    fn struct_name() -> (r: &'static str)
        ensures
            r@ == "User"@,
    {
        "User"
    }
}

/// Settings for a server process.
#[derive(Debug)]
pub struct Config {
    pub host: String,
    pub port: u16,
    pub debug: bool,
    pub workers: u32,
}

/// "true" or "false".
pub open spec fn bool_text(b: bool) -> Seq<char> {
    if b { "true"@ } else { "false"@ }
}

/// "Config { host: <host>, port: <port>, debug: <debug>, workers: <workers> }".
pub open spec fn config_text(c: Config) -> Seq<char> {
    "Config { host: "@ + c.host@ + ", port: "@ + decimal(c.port as nat) + ", debug: "@ + bool_text(c.debug)
        + ", workers: "@ + decimal(c.workers as nat) + " }"@
}

impl Config {
    /// The one-line rendering of the settings.
    pub fn display_text(&self) -> (r: String)
        ensures
            r@ == config_text(*self),
    {
        let mut r = concat2("Config { host: ", self.host.as_str());
        r.append(", port: ");
        let port = u64_to_string(self.port as u64);
        r.append(port.as_str());
        r.append(", debug: ");
        r.append(if self.debug { "true" } else { "false" });
        r.append(", workers: ");
        let workers = u64_to_string(self.workers as u64);
        r.append(workers.as_str());
        r.append(" }");
        r
    }
}

} // verus!
