//! The dsh web server: its port, its address, its log and the processes behind it.

use crate::command::{server_program, spawn_server};
use crate::outside::{lossy, lossy_form};
use crate::protocol::Command;
use crate::text::{
    blank, contains, decimal, decimal_of, ends_with, has_text, is_blank, join2, join3, join_from,
    joined, lines, lines_of, parse_unsigned, text_ends_with, texts, trim, trimmed, unsigned, words,
    words_of,
};
use vstd::prelude::*;
use vstd::utf8::{decode_utf8, valid_utf8};

verus! {

/// The port of the dsh web server where nothing else is said.
pub const DEFAULT_PORT: u16 = 3080;

/// The port that the environment asks for: the number that the variable holds, with
/// white space around it or not, or the default.
pub open spec fn port_of(variable: Option<Seq<char>>) -> u16 {
    match variable {
        Some(v) => match unsigned(trim(v), 65535) {
            Some(n) => n as u16,
            None => DEFAULT_PORT,
        },
        None => DEFAULT_PORT,
    }
}

/// The port that the environment asks for.
pub fn active_port(variable: Option<&str>) -> (r: u16)
    ensures
        r == port_of(
            match variable {
                Some(v) => Some(v@),
                None => None,
            },
        ),
{
    match variable {
        Some(v) => match parse_unsigned(trimmed(v).as_str(), 65535) {
            Some(n) => n as u16,
            None => DEFAULT_PORT,
        },
        None => DEFAULT_PORT,
    }
}

/// The address of the server on a port.
pub open spec fn url_of(port: u16) -> Seq<char> {
    "http://127.0.0.1:"@ + decimal(port as nat)
}

/// The address of the server on a port.
pub fn server_url(port: u16) -> (r: String)
    ensures
        r@ == url_of(port),
{
    join2("http://127.0.0.1:", decimal_of(port as u64).as_str())
}

/// The name of the file that takes the output of the server on a port.
pub open spec fn log_name(port: u16) -> Seq<char> {
    "dsh-server-"@ + decimal(port as nat) + ".log"@
}

/// The name of the file that takes the output of the server on a port.
pub fn server_log_name(port: u16) -> (r: String)
    ensures
        r@ == log_name(port),
{
    join3("dsh-server-", decimal_of(port as u64).as_str(), ".log")
}

/// The start of the server on a port: the program, and the name of the file that takes
/// its output and its error output.
pub fn server_start(port: u16) -> (r: (Command, String))
    ensures
        r.0@ == server_program(port),
        r.1@ == log_name(port),
{
    (spawn_server(port), server_log_name(port))
}

/// The lines of a log that are not blank.
pub open spec fn log_lines(text: Seq<char>) -> Seq<Seq<char>> {
    lines(text).filter(|l: Seq<char>| !blank(l))
}

/// The last `n` lines of a log that are not blank, or all of them where there are fewer.
pub open spec fn tail(text: Seq<char>, n: nat) -> Seq<char> {
    let l = log_lines(text);
    joined(
        if l.len() > n {
            l.skip(l.len() - n)
        } else {
            l
        },
        "\n"@,
    )
}

/// The last `n` lines of a log that are not blank.
pub fn log_tail(text: &str, n: usize) -> (r: String)
    ensures
        r@ == tail(text@, n as nat),
{
    let all = lines_of(text);
    let mut kept: Vec<String> = Vec::new();
    let ghost keep = |l: Seq<char>| !blank(l);
    let mut i: usize = 0;
    assert(texts(all@).take(0).filter(keep) =~= Seq::empty()) by {
        reveal(Seq::filter);
    }
    assert(texts(kept@) =~= texts(all@).take(0).filter(keep));
    while i < all.len()
        invariant
            i <= all@.len(),
            keep == (|l: Seq<char>| !blank(l)),
            texts(kept@) == texts(all@).take(i as int).filter(keep),
        decreases all@.len() - i,
    {
        proof {
            reveal(Seq::filter);
            assert(texts(all@).take(i + 1).drop_last() =~= texts(all@).take(i as int));
            assert(texts(all@).take(i + 1).last() == all@[i as int]@);
        }
        let ghost before = kept@;
        if !is_blank(all[i].as_str()) {
            kept.push(all[i].clone());
            assert(texts(kept@) =~= texts(before).push(all@[i as int]@));
        }
        i = i + 1;
    }
    assert(texts(all@).take(all@.len() as int) =~= texts(all@));
    let start: usize = if kept.len() > n { kept.len() - n } else { 0 };
    assert(texts(kept@).skip(0) =~= texts(kept@));
    join_from(&kept, start, "\n")
}

// ---- the processes that listen on a port ----

/// The process that a line of the connection listing shows as listening on `port`. The
/// second word of such a line is the local address, and its last word the process.
/// Process zero is nobody.
pub open spec fn listener(line: Seq<char>, port: u16) -> Option<u32> {
    let w = words(line);
    if w.len() >= 2 && ends_with(w[1], ":"@ + decimal(port as nat)) && contains(line, "LISTENING"@) {
        match unsigned(w.last(), 0xffff_ffff) {
            Some(pid) => if pid == 0 {
                None
            } else {
                Some(pid as u32)
            },
            None => None,
        }
    } else {
        None
    }
}

/// The processes that the lines of a connection listing show as listening on `port`,
/// each of them once.
pub open spec fn listeners(list: Seq<Seq<char>>, port: u16) -> Seq<u32>
    decreases list.len(),
{
    if list.len() == 0 {
        Seq::empty()
    } else {
        let before = listeners(list.drop_last(), port);
        match listener(list.last(), port) {
            Some(pid) => if before.contains(pid) {
                before
            } else {
                before.push(pid)
            },
            None => before,
        }
    }
}

fn line_listener(line: &str, port: u16) -> (r: Option<u32>)
    ensures
        r == listener(line@, port),
{
    let w = words_of(line);
    if w.len() < 2 {
        return None;
    }
    assert(texts(w@)[1] == w@[1]@);
    assert(texts(w@).last() == w@[w@.len() - 1]@);
    let needle = join2(":", decimal_of(port as u64).as_str());
    if text_ends_with(w[1].as_str(), needle.as_str()) && has_text(line, "LISTENING") {
        match parse_unsigned(w[w.len() - 1].as_str(), 0xffff_ffff) {
            Some(pid) => {
                if pid == 0 {
                    None
                } else {
                    Some(pid as u32)
                }
            },
            None => None,
        }
    } else {
        None
    }
}

fn has_pid(list: &Vec<u32>, pid: u32) -> (r: bool)
    ensures
        r == list@.contains(pid),
{
    let mut i: usize = 0;
    while i < list.len()
        invariant
            i <= list@.len(),
            forall|k: int| 0 <= k < i ==> list@[k] != pid,
        decreases list@.len() - i,
    {
        if list[i] == pid {
            return true;
        }
        i = i + 1;
    }
    false
}

/// The processes to end so that nothing listens on `port` any more, out of the listing
/// of all connections. Processes that merely hold a connection to the port are not
/// among them.
pub fn kill_port_owners(listing: &str, port: u16) -> (r: Vec<u32>)
    ensures
        r@ == listeners(lines(listing@), port),
{
    let all = lines_of(listing);
    let mut pids: Vec<u32> = Vec::new();
    let mut i: usize = 0;
    assert(texts(all@).take(0) =~= Seq::empty());
    while i < all.len()
        invariant
            i <= all@.len(),
            pids@ == listeners(texts(all@).take(i as int), port),
        decreases all@.len() - i,
    {
        proof {
            assert(texts(all@).take(i + 1).drop_last() =~= texts(all@).take(i as int));
            assert(texts(all@).take(i + 1).last() == all@[i as int]@);
        }
        match line_listener(all[i].as_str(), port) {
            Some(pid) => {
                if !has_pid(&pids, pid) {
                    pids.push(pid);
                }
            },
            None => {},
        }
        i = i + 1;
    }
    assert(texts(all@).take(all@.len() as int) =~= texts(all@));
    pids
}

/// The processes to end so that nothing listens on `port` any more, out of the bytes of
/// the listing.
pub fn kill_port_owners_bytes(listing: &Vec<u8>, port: u16) -> (r: Vec<u32>)
    ensures
        r@ == listeners(lines(lossy_form(listing@)), port),
        valid_utf8(listing@) ==> r@ == listeners(lines(decode_utf8(listing@)), port),
{
    kill_port_owners(lossy(listing).as_str(), port)
}

} // verus!
