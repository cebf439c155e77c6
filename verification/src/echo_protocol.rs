//! The replies of small echo servers: a line-based TCP session that ends on
//! "quit", a one-shot echo, and a datagram loop that stops on a stop word.

use vstd::prelude::*;
use crate::text::{concat2, concat3, str_eq, trim, trim_string, to_chars};

verus! {

/// The greeting sent when a line-based session opens.
pub const WELCOME: &'static str = "欢迎连接到 Rust TCP 服务器！输入 'quit' 退出。\n";

/// `c` with ASCII upper-case letters turned to lower case.
pub open spec fn ascii_lower(c: char) -> char {
    if 'A' <= c && c <= 'Z' {
        ((c as u8) + 32u8) as char
    } else {
        c
    }
}

/// Equality of two texts when ASCII letter case is ignored.
pub open spec fn eq_ignore_ascii_case(a: Seq<char>, b: Seq<char>) -> bool {
    a.len() == b.len() && forall|i: int| 0 <= i < a.len() ==> ascii_lower(#[trigger] a[i]) == ascii_lower(b[i])
}

fn lower_char(c: char) -> (r: char)
    ensures
        r == ascii_lower(c),
{
    if 'A' <= c && c <= 'Z' {
        ((c as u8) + 32u8) as char
    } else {
        c
    }
}

/// Compares two character vectors ignoring ASCII letter case.
fn chars_eq_ignore_ascii_case(a: &Vec<char>, b: &Vec<char>) -> (r: bool)
    ensures
        r == eq_ignore_ascii_case(a@, b@),
{
    if a.len() != b.len() {
        return false;
    }
    let mut i: usize = 0;
    while i < a.len()
        invariant
            a.len() == b.len(),
            i <= a.len(),
            forall|j: int| 0 <= j < i ==> ascii_lower(#[trigger] a@[j]) == ascii_lower(b@[j]),
        decreases a.len() - i,
    {
        if lower_char(a[i]) != lower_char(b[i]) {
            return false;
        }
        i = i + 1;
    }
    true
}

/// The reply to one line of a session, and whether the session ends.
pub struct LineReply {
    pub reply: String,
    pub close: bool,
}

/// Whether a line asks to end the session.
pub open spec fn is_quit(line: Seq<char>) -> bool {
    eq_ignore_ascii_case(trim(line), "quit"@)
}

/// "Goodbye!" for a quit line (which ends the session), else the line echoed back.
pub fn line_reply(line: &str) -> (r: LineReply)
    ensures
        r.close == is_quit(line@),
        is_quit(line@) ==> r.reply@ == "Goodbye!\n"@,
        !is_quit(line@) ==> r.reply@ == "回显: "@ + line@ + "\n"@,
{
    let t = trim_string(line);
    let tv = to_chars(t.as_str());
    let quit = to_chars("quit");
    proof {
        reveal_strlit("quit");
    }
    if chars_eq_ignore_ascii_case(&tv, &quit) {
        LineReply { reply: String::from_str("Goodbye!\n"), close: true }
    } else {
        LineReply { reply: concat3("回显: ", line, "\n"), close: false }
    }
}

/// The answer of the one-shot echo server.
pub fn simple_echo(received: &str) -> (r: String)
    ensures
        r@ == "服务器回显: "@ + received@,
{
    concat2("服务器回显: ", received)
}

/// Counts datagrams and notices the stop word.
pub struct DatagramCounter {
    pub count: u64,
}

impl DatagramCounter {
    /// Records one datagram; true when it is the stop word.
    pub fn on_datagram(&mut self, msg: &str, stop_word: &str) -> (stop: bool)
        requires
            old(self).count < u64::MAX,
        ensures
            final(self).count == old(self).count + 1,
            stop == (msg@ == stop_word@),
    {
        self.count = self.count + 1;
        str_eq(msg, stop_word)
    }
}

} // verus!
