//! What holds of the texts that are read and written: numbers, listings, paths, versions.

use crate::environment::{entries, extended, has, merged_entries};
use crate::npm::{first_version, line_version, npm_version, package_mark};
use crate::outside::{
    identifier_char, identifiers, is_version, valid_version, version_text, VersionView,
};
use crate::release::{plain_version, read_version};
use crate::server::{listener, listeners, port_of};
use crate::text::{
    chop_return, contains, cuts, decimal, is_digit, last_at, lemma_decimal, lemma_pieces_some, lines,
    occurs_at, pieces, trim, trim_end, trim_start, unsigned, unsigned_digits, white, words, Cut,
};
use vstd::prelude::*;

verus! {

// ---- numbers ----

/// A number is read back from its decimal form, where it is not too large.
pub proof fn law_decimal_is_read_back(n: nat, max: nat)
    requires
        n <= max,
    ensures
        unsigned(decimal(n), max) == Some(n),
{
    lemma_decimal(n);
    assert(is_digit(decimal(n)[0]));
    assert(unsigned_digits(decimal(n)) == decimal(n));
}

/// The server takes any port that the environment names in decimal.
pub proof fn law_any_port_can_be_named(port: u16)
    ensures
        port_of(Some(decimal(port as nat))) == port,
{
    lemma_decimal(port as nat);
    let s = decimal(port as nat);
    assert(is_digit(s[0]));
    assert(is_digit(s[s.len() - 1]));
    lemma_trim_none(s);
    law_decimal_is_read_back(port as nat, 65535);
}

// ---- trimming ----

proof fn lemma_trim_none(s: Seq<char>)
    requires
        s.len() > 0 ==> !white(s[0]) && !white(s.last()),
    ensures
        trim(s) == s,
{
}

proof fn lemma_trim_start_edge(s: Seq<char>)
    ensures
        trim_start(s).len() > 0 ==> !white(trim_start(s)[0]) && trim_start(s).last() == s.last(),
    decreases s.len(),
{
    if s.len() > 0 && white(s[0]) {
        lemma_trim_start_edge(s.drop_first());
        if s.len() == 1 {
            assert(s.drop_first() =~= Seq::empty());
        }
    }
}

proof fn lemma_trim_end_edge(s: Seq<char>)
    ensures
        trim_end(s).len() > 0 ==> !white(trim_end(s).last()) && trim_end(s)[0] == s[0],
    decreases s.len(),
{
    if s.len() > 0 && white(s.last()) {
        lemma_trim_end_edge(s.drop_last());
    }
}

/// Trimmed text has no white space at either end, so trimming it again changes nothing.
pub proof fn law_trimming_twice_is_trimming_once(s: Seq<char>)
    ensures
        trim(s).len() > 0 ==> !white(trim(s)[0]) && !white(trim(s).last()),
        trim(trim(s)) == trim(s),
{
    lemma_trim_start_edge(s);
    lemma_trim_end_edge(trim_start(s));
    lemma_trim_none(trim(s));
}

// ---- cutting ----

proof fn lemma_pieces_whole(s: Seq<char>, cut: Cut)
    requires
        forall|i: int| 0 <= i < s.len() ==> !cuts(cut, #[trigger] s[i]),
    ensures
        pieces(s, cut) == seq![s],
    decreases s.len(),
{
    if s.len() == 0 {
        assert(s =~= Seq::empty());
    } else {
        let t = s.drop_last();
        assert forall|i: int| 0 <= i < t.len() implies !cuts(cut, #[trigger] t[i]) by {
            assert(t[i] == s[i]);
        }
        lemma_pieces_whole(t, cut);
        assert(!cuts(cut, s[s.len() - 1]));
        assert(t.push(s.last()) =~= s);
        assert(pieces(s, cut) =~= seq![s]);
    }
}

proof fn lemma_pieces_first(v: Seq<char>, t: Seq<char>, cut: Cut)
    requires
        forall|i: int| 0 <= i < v.len() ==> !cuts(cut, #[trigger] v[i]),
        t.len() > 0 ==> cuts(cut, t[0]),
    ensures
        pieces(v + t, cut).len() >= 1,
        pieces(v + t, cut)[0] == v,
        t.len() > 0 ==> pieces(v + t, cut).len() >= 2,
    decreases t.len(),
{
    if t.len() == 0 {
        assert(v + t =~= v);
        lemma_pieces_whole(v, cut);
    } else {
        let u = t.drop_last();
        lemma_pieces_first(v, u, cut);
        assert((v + t).drop_last() =~= v + u);
        assert((v + t).last() == t.last());
        if u.len() == 0 {
            assert(t.last() == t[0]);
        }
    }
}

proof fn lemma_filter_first(s: Seq<Seq<char>>, keep: spec_fn(Seq<char>) -> bool)
    requires
        s.len() > 0,
        keep(s[0]),
    ensures
        s.filter(keep).len() > 0,
        s.filter(keep)[0] == s[0],
    decreases s.len(),
{
    reveal(Seq::filter);
    if s.len() == 1 {
        assert(s.drop_last() =~= Seq::empty());
        assert(s.drop_last().filter(keep) =~= Seq::empty());
    } else {
        assert(s.drop_last()[0] == s[0]);
        lemma_filter_first(s.drop_last(), keep);
    }
}

proof fn lemma_first_word(v: Seq<char>, t: Seq<char>)
    requires
        v.len() > 0,
        forall|i: int| 0 <= i < v.len() ==> !white(#[trigger] v[i]),
        t.len() > 0 ==> white(t[0]),
    ensures
        words(v + t).len() > 0,
        words(v + t)[0] == v,
{
    assert forall|i: int| 0 <= i < v.len() implies !cuts(Cut::White, #[trigger] v[i]) by {
        assert(!white(v[i]));
    }
    lemma_pieces_first(v, t, Cut::White);
    lemma_filter_first(pieces(v + t, Cut::White), |w: Seq<char>| w.len() > 0);
}

/// Text without a line feed is one line, with a line feed behind it or not.
pub proof fn law_one_line(s: Seq<char>)
    requires
        s.len() > 0,
        forall|i: int| 0 <= i < s.len() ==> (#[trigger] s[i]) != '\n',
    ensures
        lines(s) == seq![s],
        s.last() != '\r' ==> lines(s.push('\n')) == seq![s],
{
    let cut = Cut::At('\n');
    assert forall|i: int| 0 <= i < s.len() implies !cuts(cut, #[trigger] s[i]) by {}
    lemma_pieces_whole(s, cut);
    assert(lines(s) =~= seq![s]);
    assert(s.push('\n').drop_last() =~= s);
    assert(pieces(s.push('\n'), cut) =~= seq![s, Seq::empty()]);
    if s.last() != '\r' {
        assert(lines(s.push('\n')) =~= seq![s]);
    }
}

// ---- npm's listing ----

proof fn lemma_mark()
    ensures
        package_mark().len() == 17,
        package_mark()[16] == '@',
        forall|i: int| 0 <= i < 17 ==> (#[trigger] package_mark()[i]) != '\n',
{
    reveal_strlit("@deepseek-ai/dsh@");
}

/// A line of npm's listing that marks the package and then names a version gives that
/// version, whatever stands before the mark and behind the version.
pub proof fn law_listed_version_is_read(prefix: Seq<char>, version: Seq<char>, tail: Seq<char>)
    requires
        version.len() > 0,
        forall|i: int| 0 <= i < version.len() ==> !white(#[trigger] version[i]),
        forall|i: int| 0 <= i < version.len() ==> (#[trigger] version[i]) != '@',
        tail.len() > 0 ==> white(tail[0]),
        forall|i: int| 0 <= i < tail.len() ==> (#[trigger] tail[i]) != '@',
    ensures
        line_version(prefix + package_mark() + (version + tail)) == Some(version),
{
    let m = package_mark();
    let rest = version + tail;
    let s = prefix + m + rest;
    let at = prefix.len() as int;
    lemma_mark();
    assert(s.subrange(at, at + 17) =~= m);
    assert(occurs_at(s, m, at));
    assert forall|k: int| at < k implies !occurs_at(s, m, k) by {
        if occurs_at(s, m, k) {
            let sub = s.subrange(k, k + 17);
            assert(sub[16] == '@');
            assert(sub[16] == s[k + 16]);
            let j = k + 16 - at - 17;
            assert(s[k + 16] == rest[j]);
            if j < version.len() {
                assert(rest[j] == version[j]);
            } else {
                assert(rest[j] == tail[j - version.len()]);
            }
        }
    }
    lemma_last_at_is(s, m, s.len() - 17, at);
    assert(s.skip(at + 17) =~= rest);
    lemma_first_word(version, tail);
}

proof fn lemma_last_at_is(s: Seq<char>, p: Seq<char>, n: int, at: int)
    requires
        0 <= at <= n,
        occurs_at(s, p, at),
        forall|k: int| at < k ==> !occurs_at(s, p, k),
    ensures
        last_at(s, p, n) == Some(at),
    decreases n - at,
{
    if n > at {
        lemma_last_at_is(s, p, n - 1, at);
    }
}

/// A listing of one line that marks the package gives the version that it names.
pub proof fn law_one_line_listing(prefix: Seq<char>, version: Seq<char>, tail: Seq<char>)
    requires
        forall|i: int| 0 <= i < prefix.len() ==> (#[trigger] prefix[i]) != '\n',
        version.len() > 0,
        forall|i: int| 0 <= i < version.len() ==> !white(#[trigger] version[i]),
        forall|i: int| 0 <= i < version.len() ==> (#[trigger] version[i]) != '@',
        tail.len() > 0 ==> white(tail[0]) && tail.last() != '\r',
        forall|i: int| 0 <= i < tail.len() ==> (#[trigger] tail[i]) != '@' && tail[i] != '\n',
    ensures
        npm_version(prefix + package_mark() + (version + tail)) == Some(version),
        npm_version((prefix + package_mark() + (version + tail)).push('\n')) == Some(version),
{
    let m = package_mark();
    let s = prefix + m + (version + tail);
    lemma_mark();
    law_listed_version_is_read(prefix, version, tail);
    assert forall|i: int| 0 <= i < s.len() implies (#[trigger] s[i]) != '\n' by {
        if i < prefix.len() {
            assert(s[i] == prefix[i]);
        } else if i < prefix.len() + 17 {
            assert(s[i] == m[i - prefix.len()]);
        } else if i < prefix.len() + 17 + version.len() {
            assert(s[i] == version[i - prefix.len() - 17]);
        } else {
            assert(s[i] == tail[i - prefix.len() - 17 - version.len()]);
        }
    }
    if tail.len() == 0 {
        assert(s.last() == version[version.len() - 1]);
    } else {
        assert(s.last() == tail.last());
    }
    law_one_line(s);
}

proof fn lemma_piece_is_part(s: Seq<char>, cut: Cut, i: int)
    requires
        0 <= i < pieces(s, cut).len(),
    ensures
        pieces(s, cut).len() >= 1,
        exists|a: int, b: int| 0 <= a <= b <= s.len() && #[trigger] s.subrange(a, b) == pieces(s, cut)[i],
        i == pieces(s, cut).len() - 1 ==> exists|a: int|
            0 <= a <= s.len() && #[trigger] s.subrange(a, s.len() as int) == pieces(s, cut)[i],
    decreases s.len(),
{
    if s.len() == 0 {
        assert(s.subrange(0, 0) =~= pieces(s, cut)[i]);
        assert(s.subrange(0, s.len() as int) =~= pieces(s, cut)[i]);
    } else {
        let t = s.drop_last();
        let before = pieces(t, cut);
        lemma_pieces_some(t, cut);
        if cuts(cut, s.last()) {
            if i < before.len() {
                lemma_piece_is_part(t, cut, i);
                let (a, b) = choose|a: int, b: int|
                    0 <= a <= b <= t.len() && #[trigger] t.subrange(a, b) == before[i];
                assert(s.subrange(a, b) =~= t.subrange(a, b));
            } else {
                assert(s.subrange(s.len() as int, s.len() as int) =~= pieces(s, cut)[i]);
            }
        } else {
            lemma_piece_is_part(t, cut, i);
            if i == before.len() - 1 {
                let a = choose|a: int|
                    0 <= a <= t.len() && #[trigger] t.subrange(a, t.len() as int) == before[i];
                assert(s.subrange(a, s.len() as int) =~= t.subrange(a, t.len() as int).push(
                    s.last(),
                ));
                assert(s.subrange(a, s.len() as int) == pieces(s, cut)[i]);
            } else {
                let (a, b) = choose|a: int, b: int|
                    0 <= a <= b <= t.len() && #[trigger] t.subrange(a, b) == before[i];
                assert(s.subrange(a, b) =~= t.subrange(a, b));
                assert(pieces(s, cut)[i] == before[i]);
            }
        }
    }
}

proof fn lemma_line_is_part(s: Seq<char>, i: int)
    requires
        0 <= i < lines(s).len(),
    ensures
        exists|a: int, b: int| 0 <= a <= b <= s.len() && #[trigger] s.subrange(a, b) == lines(s)[i],
{
    let cut = Cut::At('\n');
    lemma_pieces_some(s, cut);
    lemma_piece_is_part(s, cut, i);
    let p = pieces(s, cut)[i];
    let (a, b) = choose|a: int, b: int| 0 <= a <= b <= s.len() && #[trigger] s.subrange(a, b) == p;
    if lines(s)[i] == p {
    } else {
        assert(lines(s)[i] == chop_return(p));
        assert(s.subrange(a, b - 1) =~= p.drop_last());
    }
}

proof fn lemma_no_version(list: Seq<Seq<char>>)
    requires
        forall|i: int| 0 <= i < list.len() ==> line_version(#[trigger] list[i]) is None,
    ensures
        first_version(list) is None,
    decreases list.len(),
{
    if list.len() > 0 {
        let rest = list.drop_first();
        assert forall|i: int| 0 <= i < rest.len() implies line_version(#[trigger] rest[i]) is None by {
            assert(rest[i] == list[i + 1]);
        }
        assert(line_version(list[0]) is None);
        lemma_no_version(rest);
    }
}

proof fn lemma_last_at_occurs(s: Seq<char>, p: Seq<char>, n: int)
    ensures
        last_at(s, p, n) matches Some(i) ==> occurs_at(s, p, i),
    decreases n + 1,
{
    if n >= 0 && !occurs_at(s, p, n) {
        lemma_last_at_occurs(s, p, n - 1);
    }
}

/// A listing that does not mark the package gives no version.
pub proof fn law_unlisted_package_has_no_version(listing: Seq<char>)
    requires
        !contains(listing, package_mark()),
    ensures
        npm_version(listing) is None,
{
    let m = package_mark();
    let all = lines(listing);
    assert forall|i: int| 0 <= i < all.len() implies line_version(#[trigger] all[i]) is None by {
        let line = all[i];
        lemma_last_at_occurs(line, m, line.len() - m.len());
        if let Some(k) = last_at(line, m, line.len() - m.len()) {
            lemma_line_is_part(listing, i);
            let (a, b) = choose|a: int, b: int|
                0 <= a <= b <= listing.len() && #[trigger] listing.subrange(a, b) == line;
            assert(listing.subrange(a + k, a + k + m.len()) =~= line.subrange(k, k + m.len()));
            assert(occurs_at(listing, m, a + k));
        }
    }
    lemma_no_version(all);
}

// ---- the processes that listen ----

/// The processes to end are exactly those that some line shows as listening on the port;
/// each is named once, and process zero is not among them.
pub proof fn law_listeners_are_the_listening_processes(list: Seq<Seq<char>>, port: u16)
    ensures
        listeners(list, port).no_duplicates(),
        !listeners(list, port).contains(0),
        forall|pid: u32| #[trigger]
            listeners(list, port).contains(pid) <==> exists|i: int|
                0 <= i < list.len() && listener(#[trigger] list[i], port) == Some(pid),
    decreases list.len(),
{
    if list.len() > 0 {
        let rest = list.drop_last();
        let before = listeners(rest, port);
        let after = listeners(list, port);
        law_listeners_are_the_listening_processes(rest, port);
        assert forall|pid: u32| #[trigger] after.contains(pid) <==> exists|i: int|
            0 <= i < list.len() && listener(#[trigger] list[i], port) == Some(pid) by {
            if after.contains(pid) {
                if before.contains(pid) {
                    let i = choose|i: int|
                        0 <= i < rest.len() && listener(#[trigger] rest[i], port) == Some(pid);
                    assert(list[i] == rest[i]);
                } else {
                    assert(listener(list[list.len() - 1], port) == Some(pid));
                }
            }
            if exists|i: int| 0 <= i < list.len() && listener(#[trigger] list[i], port) == Some(pid) {
                let i = choose|i: int|
                    0 <= i < list.len() && listener(#[trigger] list[i], port) == Some(pid);
                if i < rest.len() {
                    assert(rest[i] == list[i]);
                    assert(before.contains(pid));
                    let k = choose|k: int| 0 <= k < before.len() && before[k] == pid;
                    assert(after[k] == pid);
                } else if before.contains(pid) {
                    assert(after == before);
                } else {
                    assert(after[before.len() as int] == pid);
                }
            }
        }
    }
}

/// A line that shows no listener, such as that of a mere connection to the port, names
/// nobody to end.
pub proof fn law_connections_are_left_alone(line: Seq<char>, port: u16)
    requires
        !contains(line, "LISTENING"@),
    ensures
        listener(line, port) is None,
{
}

// ---- the search path ----

/// Whether no two entries of `list` are equal.
pub open spec fn distinct(list: Seq<Seq<char>>) -> bool {
    forall|i: int, j: int| 0 <= i < j < list.len() ==> list[i] != list[j]
}

/// Extending a search path keeps what it holds, in place; adds every new entry once; and
/// adds nothing else.
pub proof fn law_extending_a_path(list: Seq<Seq<char>>, more: Seq<Seq<char>>)
    ensures
        ({
            let r = extended(list, more);
            &&& list.len() <= r.len() && r.take(list.len() as int) == list
            &&& distinct(list) ==> distinct(r)
            &&& forall|i: int|
                0 <= i < more.len() && trim(#[trigger] more[i]).len() > 0 ==> has(r, trim(more[i]))
            &&& forall|k: int|
                list.len() <= k < r.len() ==> (#[trigger] r[k]).len() > 0 && exists|i: int|
                    0 <= i < more.len() && trim(#[trigger] more[i]) == r[k]
        }),
    decreases more.len(),
{
    if more.len() == 0 {
        assert(list.take(list.len() as int) =~= list);
    } else {
        let rest = more.drop_last();
        let before = extended(list, rest);
        let r = extended(list, more);
        let e = trim(more.last());
        law_extending_a_path(list, rest);
        assert(r.take(list.len() as int) =~= before.take(list.len() as int));
        assert forall|i: int| 0 <= i < more.len() && trim(#[trigger] more[i]).len() > 0 implies has(
            r,
            trim(more[i]),
        ) by {
            if i < rest.len() {
                assert(rest[i] == more[i]);
                assert(has(before, trim(rest[i])));
                let k = choose|k: int| 0 <= k < before.len() && #[trigger] before[k] == trim(rest[i]);
                assert(r[k] == before[k]);
            } else if has(before, e) {
                assert(r == before);
            } else {
                assert(r[before.len() as int] == e);
            }
        }
        assert forall|k: int| list.len() <= k < r.len() implies (#[trigger] r[k]).len() > 0
            && exists|i: int| 0 <= i < more.len() && trim(#[trigger] more[i]) == r[k] by {
            if k < before.len() {
                assert(r[k] == before[k]);
                let i = choose|i: int| 0 <= i < rest.len() && trim(#[trigger] rest[i]) == before[k];
                assert(more[i] == rest[i]);
            } else {
                assert(trim(more[more.len() - 1]) == r[k]);
            }
        }
        if distinct(list) && !(e.len() == 0 || has(before, e)) {
            assert forall|i: int, j: int| 0 <= i < j < r.len() implies r[i] != r[j] by {
                if j == before.len() {
                    assert(before[i] == r[i]);
                }
            }
        }
    }
}

/// The search path of this process names nothing twice, starts with what new processes
/// get, and loses no entry that this process had.
pub proof fn law_refreshed_path(registry: Seq<char>, current: Option<Seq<char>>)
    ensures
        ({
            let r = merged_entries(registry, current);
            let first = extended(Seq::empty(), entries(registry));
            &&& distinct(r)
            &&& first.len() <= r.len() && r.take(first.len() as int) == first
            &&& current matches Some(c) ==> forall|i: int|
                0 <= i < entries(c).len() && trim(#[trigger] entries(c)[i]).len() > 0 ==> has(
                    r,
                    trim(entries(c)[i]),
                )
        }),
{
    let first = extended(Seq::empty(), entries(registry));
    law_extending_a_path(Seq::empty(), entries(registry));
    match current {
        Some(c) => {
            law_extending_a_path(first, entries(c));
        },
        None => {
            assert(first.take(first.len() as int) =~= first);
        },
    }
}

// ---- versions ----

proof fn lemma_trim_end_behind_v(s: Seq<char>)
    ensures
        trim_end(seq!['v'] + s) == seq!['v'] + trim_end(s),
    decreases s.len(),
{
    let t = seq!['v'] + s;
    if s.len() > 0 && white(s.last()) {
        assert(t.drop_last() =~= seq!['v'] + s.drop_last());
        lemma_trim_end_behind_v(s.drop_last());
    } else if s.len() == 0 {
        assert(t =~= seq!['v']);
        assert(t.last() == 'v');
    }
}

/// A v in front of a version changes nothing of what the version is.
pub proof fn law_leading_v_is_ignored(s: Seq<char>)
    requires
        s.len() > 0 ==> !white(s[0]),
    ensures
        plain_version(seq!['v'] + s) == plain_version(s),
        read_version(seq!['v'] + s) == read_version(s),
{
    let t = seq!['v'] + s;
    assert(trim_start(t) == t);
    assert(trim_start(s) == s);
    lemma_trim_end_behind_v(s);
    let u = seq!['v'] + trim_end(s);
    assert(u.drop_first() =~= trim_end(s));
}

/// White space around a version changes nothing of what the version is.
pub proof fn law_space_around_a_version_is_ignored(s: Seq<char>)
    ensures
        read_version(trim(s)) == read_version(s),
{
    law_trimming_twice_is_trimming_once(s);
}

proof fn lemma_split(
    a: Seq<char>,
    x: Seq<char>,
    b: Seq<char>,
    y: Seq<char>,
    p: spec_fn(char) -> bool,
)
    requires
        a + x == b + y,
        forall|i: int| 0 <= i < a.len() ==> p(#[trigger] a[i]),
        forall|i: int| 0 <= i < b.len() ==> p(#[trigger] b[i]),
        x.len() > 0 ==> !p(x[0]),
        y.len() > 0 ==> !p(y[0]),
    ensures
        a == b,
        x == y,
{
    let s = a + x;
    assert(s.len() == a.len() + x.len());
    assert((b + y).len() == b.len() + y.len());
    if a.len() < b.len() {
        assert(s[a.len() as int] == x[0]);
        assert((b + y)[a.len() as int] == b[a.len() as int]);
        assert(p(b[a.len() as int]));
    }
    if b.len() < a.len() {
        assert((b + y)[b.len() as int] == y[0]);
        assert(s[b.len() as int] == a[b.len() as int]);
        assert(p(a[b.len() as int]));
    }
    assert(a =~= s.take(a.len() as int));
    assert(b =~= (b + y).take(b.len() as int));
    assert(x =~= s.skip(a.len() as int));
    assert(y =~= (b + y).skip(b.len() as int));
}

proof fn lemma_pieces_chars(s: Seq<char>, cut: Cut, q: spec_fn(char) -> bool)
    requires
        forall|i: int, k: int|
            0 <= i < pieces(s, cut).len() && 0 <= k < pieces(s, cut)[i].len() ==> q(
                #[trigger] pieces(s, cut)[i][k],
            ),
    ensures
        forall|j: int| 0 <= j < s.len() ==> q(#[trigger] s[j]) || cuts(cut, s[j]),
    decreases s.len(),
{
    if s.len() > 0 {
        let t = s.drop_last();
        let before = pieces(t, cut);
        let all = pieces(s, cut);
        lemma_pieces_some(t, cut);
        assert forall|i: int, k: int|
            0 <= i < before.len() && 0 <= k < before[i].len() implies q(
            #[trigger] before[i][k],
        ) by {
            assert(all[i][k] == before[i][k]);
        }
        lemma_pieces_chars(t, cut, q);
        assert forall|j: int| 0 <= j < s.len() implies q(#[trigger] s[j]) || cuts(cut, s[j]) by {
            if j < t.len() {
                assert(t[j] == s[j]);
            } else if !cuts(cut, s.last()) {
                let i = before.len() - 1;
                let k = before.last().len() as int;
                assert(all[i] == before.last().push(s.last()));
                assert(all[i][k] == s.last());
            }
        }
    }
}

/// The characters that the parts of a version hold.
pub open spec fn part_char(c: char) -> bool {
    identifier_char(c) || c == '.'
}

proof fn lemma_identifier_chars(s: Seq<char>, strict: bool)
    requires
        identifiers(s, strict),
    ensures
        forall|j: int| 0 <= j < s.len() ==> part_char(#[trigger] s[j]),
{
    let cut = Cut::At('.');
    let p = pieces(s, cut);
    assert forall|i: int, k: int| 0 <= i < p.len() && 0 <= k < p[i].len() implies identifier_char(
        #[trigger] p[i][k],
    ) by {
        assert(p[i].len() > 0);
    }
    let q = |c: char| identifier_char(c);
    assert forall|i: int, k: int| 0 <= i < p.len() && 0 <= k < p[i].len() implies q(
        #[trigger] p[i][k],
    ) by {
        assert(identifier_char(p[i][k]));
    }
    lemma_pieces_chars(s, cut, q);
    assert forall|j: int| 0 <= j < s.len() implies part_char(#[trigger] s[j]) by {
        assert(q(s[j]) || cuts(cut, s[j]));
    }
}

/// The pre-release part in the text of a version.
pub open spec fn pre_text(v: VersionView) -> Seq<char> {
    if v.pre.len() == 0 {
        Seq::empty()
    } else {
        seq!['-'] + v.pre
    }
}

/// The build metadata in the text of a version.
pub open spec fn build_text(v: VersionView) -> Seq<char> {
    if v.build.len() == 0 {
        Seq::empty()
    } else {
        seq!['+'] + v.build
    }
}

proof fn lemma_version_parts(v: VersionView)
    requires
        valid_version(v),
    ensures
        version_text(v) == decimal(v.major as nat) + (seq!['.'] + (decimal(v.minor as nat) + (
        seq!['.'] + (decimal(v.patch as nat) + (pre_text(v) + build_text(v)))))),
        forall|i: int| 0 <= i < pre_text(v).len() ==> (#[trigger] pre_text(v)[i]) != '+' && !white(
            pre_text(v)[i],
        ),
        forall|i: int| 0 <= i < build_text(v).len() ==> !white(#[trigger] build_text(v)[i]),
{
    assert(version_text(v) =~= decimal(v.major as nat) + (seq!['.'] + (decimal(v.minor as nat) + (
    seq!['.'] + (decimal(v.patch as nat) + (pre_text(v) + build_text(v)))))));
    if v.pre.len() > 0 {
        lemma_identifier_chars(v.pre, true);
        assert forall|i: int| 0 <= i < pre_text(v).len() implies (#[trigger] pre_text(v)[i]) != '+'
            && !white(pre_text(v)[i]) by {
            if i > 0 {
                assert(pre_text(v)[i] == v.pre[i - 1]);
            }
        }
    }
    if v.build.len() > 0 {
        lemma_identifier_chars(v.build, false);
        assert forall|i: int| 0 <= i < build_text(v).len() implies !white(
            #[trigger] build_text(v)[i],
        ) by {
            if i > 0 {
                assert(build_text(v)[i] == v.build[i - 1]);
            }
        }
    }
}

proof fn lemma_number(n: nat, x: Seq<char>, m: nat, y: Seq<char>)
    requires
        decimal(n) + x == decimal(m) + y,
        x.len() > 0 ==> !is_digit(x[0]),
        y.len() > 0 ==> !is_digit(y[0]),
    ensures
        n == m,
        x == y,
{
    lemma_decimal(n);
    lemma_decimal(m);
    lemma_split(decimal(n), x, decimal(m), y, |c: char| is_digit(c));
}

proof fn lemma_cons(c: char, x: Seq<char>, y: Seq<char>)
    requires
        seq![c] + x == seq![c] + y,
    ensures
        x == y,
{
    assert(x =~= (seq![c] + x).skip(1));
    assert(y =~= (seq![c] + y).skip(1));
}

/// Two well-formed versions with the same text are the same version.
pub proof fn law_a_text_is_one_version(v: VersionView, w: VersionView)
    requires
        valid_version(v),
        valid_version(w),
        version_text(v) == version_text(w),
    ensures
        v == w,
{
    lemma_version_parts(v);
    lemma_version_parts(w);
    let v4 = pre_text(v) + build_text(v);
    let w4 = pre_text(w) + build_text(w);
    let v3 = decimal(v.patch as nat) + v4;
    let w3 = decimal(w.patch as nat) + w4;
    let v2 = decimal(v.minor as nat) + (seq!['.'] + v3);
    let w2 = decimal(w.minor as nat) + (seq!['.'] + w3);
    lemma_number(v.major as nat, seq!['.'] + v2, w.major as nat, seq!['.'] + w2);
    lemma_cons('.', v2, w2);
    lemma_number(v.minor as nat, seq!['.'] + v3, w.minor as nat, seq!['.'] + w3);
    lemma_cons('.', v3, w3);
    lemma_number(v.patch as nat, v4, w.patch as nat, w4);
    lemma_split(
        pre_text(v),
        build_text(v),
        pre_text(w),
        build_text(w),
        |c: char| c != '+',
    );
    if v.pre.len() > 0 {
        lemma_cons('-', v.pre, w.pre);
    } else {
        assert(v.pre =~= w.pre);
    }
    if v.build.len() > 0 {
        lemma_cons('+', v.build, w.build);
    } else {
        assert(v.build =~= w.build);
    }
}

/// A well-formed version is read back from its text, with a v in front of it or not.
pub proof fn law_version_is_read_back(v: VersionView)
    requires
        valid_version(v),
    ensures
        read_version(version_text(v)) == Some(v),
        read_version(seq!['v'] + version_text(v)) == Some(v),
{
    let s = version_text(v);
    lemma_version_parts(v);
    lemma_decimal(v.major as nat);
    lemma_decimal(v.minor as nat);
    lemma_decimal(v.patch as nat);
    assert(s[0] == decimal(v.major as nat)[0]);
    assert(is_digit(decimal(v.major as nat)[0]));
    let p = decimal(v.patch as nat);
    if build_text(v).len() > 0 {
        assert(s.last() == build_text(v)[build_text(v).len() - 1]);
    } else if pre_text(v).len() > 0 {
        assert(s.last() == pre_text(v)[pre_text(v).len() - 1]);
    } else {
        assert(is_digit(p[p.len() - 1]));
        assert(s.last() == p[p.len() - 1]);
    }
    lemma_trim_none(s);
    assert(plain_version(s) == s);
    assert(is_version(v, s));
    let w = choose|w: VersionView| is_version(w, s);
    law_a_text_is_one_version(v, w);
    law_leading_v_is_ignored(s);
}

} // verus!
