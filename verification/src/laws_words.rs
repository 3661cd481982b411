//! How text is taken apart: white space, lines, words, numbers, and what stands in them.

use crate::npm::{
    first_version, installed_version, line_version, listed_version, npm_version, package_mark,
    trimmed_output,
};
use crate::outside::{identifier_char, identifiers, leading_zero, valid_version, VersionView};
use crate::server::{listener, log_lines, port_of, tail};
use crate::text::{
    after_last, blank, char_units, chop_return, contains, cuts, decimal, digits_value, ends_with,
    is_digit, joined, last_at, lemma_decimal, lemma_pieces_some, lines, occurs_at, pieces,
    signed_decimal, strip_start, trim, trim_end, trim_start, units, unsigned, unsigned_digits,
    white, words, Cut,
};
use vstd::prelude::*;

verus! {

// ---- white space ----

/// The white space of Unicode is twenty-five characters.
pub proof fn law_white_space(c: char)
    ensures
        white(c) <==> seq![
            0x9u32,
            0xau32,
            0xbu32,
            0xcu32,
            0xdu32,
            0x20u32,
            0x85u32,
            0xa0u32,
            0x1680u32,
            0x2000u32,
            0x2001u32,
            0x2002u32,
            0x2003u32,
            0x2004u32,
            0x2005u32,
            0x2006u32,
            0x2007u32,
            0x2008u32,
            0x2009u32,
            0x200au32,
            0x2028u32,
            0x2029u32,
            0x202fu32,
            0x205fu32,
            0x3000u32,
        ].contains(c as u32),
{
    let all = seq![
        0x9u32,
        0xau32,
        0xbu32,
        0xcu32,
        0xdu32,
        0x20u32,
        0x85u32,
        0xa0u32,
        0x1680u32,
        0x2000u32,
        0x2001u32,
        0x2002u32,
        0x2003u32,
        0x2004u32,
        0x2005u32,
        0x2006u32,
        0x2007u32,
        0x2008u32,
        0x2009u32,
        0x200au32,
        0x2028u32,
        0x2029u32,
        0x202fu32,
        0x205fu32,
        0x3000u32,
    ];
    let n = c as u32;
    if white(c) {
        let i: int = if n <= 0xd {
            n - 0x9
        } else if n == 0x20 {
            5
        } else if n == 0x85 {
            6
        } else if n == 0xa0 {
            7
        } else if n == 0x1680 {
            8
        } else if n <= 0x200a {
            9 + (n - 0x2000)
        } else if n == 0x2028 {
            20
        } else if n == 0x2029 {
            21
        } else if n == 0x202f {
            22
        } else if n == 0x205f {
            23
        } else {
            24
        };
        assert(all[i] == n);
    }
}

proof fn lemma_trim_start_blank_front(a: Seq<char>, t: Seq<char>)
    requires
        blank(a),
    ensures
        trim_start(a + t) == trim_start(t),
    decreases a.len(),
{
    if a.len() == 0 {
        assert(a + t =~= t);
    } else {
        let b = a.drop_first();
        assert forall|i: int| 0 <= i < b.len() implies white(#[trigger] b[i]) by {
            assert(b[i] == a[i + 1]);
        }
        assert(white(a[0]));
        assert((a + t).drop_first() =~= b + t);
        lemma_trim_start_blank_front(b, t);
    }
}

proof fn lemma_trim_end_blank_back(t: Seq<char>, b: Seq<char>)
    requires
        blank(b),
    ensures
        trim_end(t + b) == trim_end(t),
    decreases b.len(),
{
    if b.len() == 0 {
        assert(t + b =~= t);
    } else {
        let c = b.drop_last();
        assert forall|i: int| 0 <= i < c.len() implies white(#[trigger] c[i]) by {
            assert(c[i] == b[i]);
        }
        assert(white(b[b.len() - 1]));
        assert((t + b).drop_last() =~= t + c);
        lemma_trim_end_blank_back(t, c);
    }
}

/// Trimming takes off the white space around a text and nothing else.
pub proof fn law_trimming_takes_off_the_edges(a: Seq<char>, t: Seq<char>, b: Seq<char>)
    requires
        blank(a),
        blank(b),
        t.len() > 0 ==> !white(t[0]) && !white(t.last()),
    ensures
        trim(a + t + b) == t,
{
    assert(a + t + b =~= a + (t + b));
    lemma_trim_start_blank_front(a, t + b);
    if t.len() > 0 {
        assert((t + b)[0] == t[0]);
        assert(trim_start(t + b) == t + b);
        lemma_trim_end_blank_back(t, b);
    } else {
        assert(t + b =~= b + Seq::empty());
        lemma_trim_start_blank_front(b, Seq::empty());
        assert(trim_start(a + (t + b)) == trim_start(Seq::<char>::empty()));
        assert(t =~= Seq::empty());
    }
}

/// Stripping takes off the run of a character at the start and nothing else.
pub proof fn law_stripping_takes_off_the_run(s: Seq<char>, c: char)
    ensures
        strip_start(seq![c] + s, c) == strip_start(s, c),
        s.len() == 0 || s[0] != c ==> strip_start(s, c) == s,
{
    assert((seq![c] + s).drop_first() =~= s);
    assert((seq![c] + s)[0] == c);
}

// ---- cutting ----

proof fn lemma_whole(s: Seq<char>, cut: Cut)
    requires
        forall|i: int| 0 <= i < s.len() ==> !cuts(cut, #[trigger] s[i]),
    ensures
        pieces(s, cut) == seq![s],
    decreases s.len(),
{
    if s.len() == 0 {
        assert(s =~= Seq::empty());
    } else {
        let t = s.drop_last();
        assert forall|i: int| 0 <= i < t.len() implies !cuts(cut, #[trigger] t[i]) by {
            assert(t[i] == s[i]);
        }
        lemma_whole(t, cut);
        assert(!cuts(cut, s[s.len() - 1]));
        assert(t.push(s.last()) =~= s);
        assert(pieces(s, cut) =~= seq![s]);
    }
}

/// Text is cut at the first character to cut at, and what follows it is cut in turn; text
/// without such a character is one piece.
pub proof fn law_cutting(a: Seq<char>, c: char, b: Seq<char>, cut: Cut)
    requires
        forall|i: int| 0 <= i < a.len() ==> !cuts(cut, #[trigger] a[i]),
        cuts(cut, c),
    ensures
        pieces(a, cut) == seq![a],
        pieces(a.push(c) + b, cut) == seq![a] + pieces(b, cut),
    decreases b.len(),
{
    lemma_whole(a, cut);
    let whole = a.push(c) + b;
    if b.len() == 0 {
        assert(whole =~= a.push(c));
        assert(whole.drop_last() =~= a);
        assert(b =~= Seq::empty());
        assert(pieces(whole, cut) =~= seq![a] + pieces(b, cut));
    } else {
        let t = b.drop_last();
        law_cutting(a, c, t, cut);
        lemma_pieces_some(t, cut);
        assert(whole.drop_last() =~= a.push(c) + t);
        assert(whole.last() == b.last());
        assert(pieces(whole, cut) =~= seq![a] + pieces(b, cut));
    }
}

/// A line ends at a line feed, and a carriage return before it belongs to the end; what
/// follows is taken into lines in turn. Text without a line feed is one line, and no text is
/// no line.
pub proof fn law_lines_end_at_line_feeds(a: Seq<char>, b: Seq<char>)
    requires
        forall|i: int| 0 <= i < a.len() ==> (#[trigger] a[i]) != '\n',
    ensures
        a.len() > 0 ==> lines(a) == seq![a],
        lines(Seq::empty()).len() == 0,
        a.len() == 0 || a.last() != '\r' ==> lines(a.push('\n') + b) == seq![a] + lines(b),
        a.len() == 0 || a.last() != '\r' ==> lines(a.push('\r').push('\n') + b) == seq![a] + lines(
            b,
        ),
        a.len() > 0 && a.last() == '\r' ==> lines(a.push('\n') + b) == seq![a.drop_last()] + lines(
            b,
        ),
{
    let cut = Cut::At('\n');
    law_cutting(a, '\n', b, cut);
    let r = a.push('\r');
    assert forall|i: int| 0 <= i < r.len() implies !cuts(cut, #[trigger] r[i]) by {
        if i < a.len() {
            assert(r[i] == a[i]);
        }
    }
    law_cutting(r, '\n', b, cut);
    lemma_pieces_some(b, cut);
    assert(pieces(Seq::<char>::empty(), cut) =~= seq![Seq::<char>::empty()]);
    assert(lines(Seq::empty()) =~= Seq::empty());
    assert(r.drop_last() =~= a);
    assert(lines(a.push('\n') + b) =~= seq![chop_return(a)] + lines(b));
    assert(lines(r.push('\n') + b) =~= seq![chop_return(r)] + lines(b));
    assert(chop_return(r) =~= a);
    if a.len() > 0 {
        assert(lines(a) =~= seq![a]);
    }
}

proof fn lemma_filter_front(
    x: Seq<char>,
    rest: Seq<Seq<char>>,
    keep: spec_fn(Seq<char>) -> bool,
)
    ensures
        (seq![x] + rest).filter(keep) == (if keep(x) {
            seq![x]
        } else {
            Seq::empty()
        }) + rest.filter(keep),
    decreases rest.len(),
{
    reveal(Seq::filter);
    let all = seq![x] + rest;
    if rest.len() == 0 {
        assert(all =~= seq![x]);
        assert(all.drop_last() =~= Seq::<Seq<char>>::empty());
        assert(all.drop_last().filter(keep) =~= Seq::<Seq<char>>::empty());
        assert(rest.filter(keep) =~= Seq::<Seq<char>>::empty());
        assert(all.last() == x);
        assert(all.filter(keep) =~= (if keep(x) {
            seq![x]
        } else {
            Seq::empty()
        }) + rest.filter(keep));
    } else {
        let t = rest.drop_last();
        lemma_filter_front(x, t, keep);
        assert(all.drop_last() =~= seq![x] + t);
        assert(all.last() == rest.last());
        assert(all.filter(keep) =~= (if keep(x) {
            seq![x]
        } else {
            Seq::empty()
        }) + rest.filter(keep));
    }
}

/// White space in front of a text makes no word; a row of other characters up to the next
/// white space is a word; and so on.
pub proof fn law_words_stand_between_white_space(w: Seq<char>, c: char, s: Seq<char>)
    requires
        forall|i: int| 0 <= i < w.len() ==> !white(#[trigger] w[i]),
        white(c),
    ensures
        words(Seq::empty()).len() == 0,
        w.len() > 0 ==> words(w) == seq![w],
        words(seq![c] + s) == words(s),
        w.len() > 0 ==> words(w.push(c) + s) == seq![w] + words(s),
{
    let cut = Cut::White;
    let keep = |x: Seq<char>| x.len() > 0;
    let none = Seq::<char>::empty();
    law_cutting(w, c, s, cut);
    law_cutting(none, c, s, cut);
    assert(none.push(c) + s =~= seq![c] + s);
    lemma_filter_front(none, pieces(s, cut), keep);
    lemma_filter_front(w, pieces(s, cut), keep);
    lemma_filter_front(w, Seq::empty(), keep);
    lemma_filter_front(none, Seq::empty(), keep);
    reveal(Seq::filter);
    assert(seq![w] + Seq::<Seq<char>>::empty() =~= seq![w]);
    assert(seq![none] + Seq::<Seq<char>>::empty() =~= seq![none]);
    assert(Seq::<Seq<char>>::empty().filter(keep) =~= Seq::<Seq<char>>::empty());
    assert(pieces(none, cut) =~= seq![none]);
    assert(Seq::<Seq<char>>::empty() + words(s) =~= words(s));
    assert(seq![w] + Seq::<Seq<char>>::empty().filter(keep) =~= seq![w]);
    assert(Seq::<Seq<char>>::empty() + Seq::<Seq<char>>::empty().filter(keep) =~= Seq::<
        Seq<char>,
    >::empty());
}

/// Texts are joined in their order, with the separator between each two of them.
pub proof fn law_joining(list: Seq<Seq<char>>, x: Seq<char>, sep: Seq<char>)
    ensures
        joined(Seq::empty(), sep) == Seq::<char>::empty(),
        joined(seq![x], sep) == x,
        list.len() > 0 ==> joined(list.push(x), sep) == joined(list, sep) + sep + x,
{
    assert(list.push(x).drop_last() =~= list);
}

// ---- search ----

/// A text stands in another exactly where the other is the text with something before it
/// and something behind it.
pub proof fn law_containing(s: Seq<char>, p: Seq<char>, a: Seq<char>, b: Seq<char>)
    ensures
        contains(a + p + b, p),
        contains(s, p) ==> exists|i: int|
            0 <= i <= s.len() - p.len() && s == #[trigger] s.take(i) + p + s.skip(i + p.len()),
        ends_with(a + p, p),
        ends_with(s, p) ==> p.len() <= s.len() && s == s.take(s.len() - p.len()) + p,
{
    assert((a + p + b).subrange(a.len() as int, (a.len() + p.len()) as int) =~= p);
    assert(occurs_at(a + p + b, p, a.len() as int));
    assert((a + p).subrange(a.len() as int, (a.len() + p.len()) as int) =~= p);
    if contains(s, p) {
        let i = choose|i: int| occurs_at(s, p, i);
        assert(s =~= s.take(i) + p + s.skip(i + p.len())) by {
            assert forall|k: int| 0 <= k < p.len() implies s[i + k] == #[trigger] p[k] by {
                assert(s.subrange(i, i + p.len())[k] == p[k]);
            }
        }
    }
    if ends_with(s, p) {
        let i = s.len() - p.len();
        assert(s =~= s.take(i) + p) by {
            assert forall|k: int| 0 <= k < p.len() implies s[i + k] == #[trigger] p[k] by {
                assert(s.subrange(i, i + p.len())[k] == p[k]);
            }
        }
    }
}

proof fn lemma_last(s: Seq<char>, p: Seq<char>, n: int)
    ensures
        last_at(s, p, n) matches Some(i) ==> 0 <= i <= n && occurs_at(s, p, i) && (forall|k: int|
            i < k <= n ==> !occurs_at(s, p, k)),
        last_at(s, p, n) is None ==> (forall|k: int| k <= n ==> !occurs_at(s, p, k)),
    decreases n + 1,
{
    if n >= 0 && !occurs_at(s, p, n) {
        lemma_last(s, p, n - 1);
    }
}

/// What follows the last occurrence of a text is what stands behind it, and the text does
/// not occur again from any later place on; there is nothing to follow exactly where the
/// text does not occur.
pub proof fn law_what_follows_the_last(s: Seq<char>, p: Seq<char>)
    ensures
        after_last(s, p) is Some <==> contains(s, p),
        after_last(s, p) matches Some(t) ==> {
            let i = s.len() - t.len() - p.len();
            &&& occurs_at(s, p, i)
            &&& t == s.skip(i + p.len())
            &&& forall|k: int| k > i ==> !occurs_at(s, p, k)
        },
{
    let n = s.len() - p.len();
    lemma_last(s, p, n);
    if after_last(s, p) is Some {
        let i = last_at(s, p, n)->0;
        assert(occurs_at(s, p, i));
    } else {
        assert forall|k: int| !occurs_at(s, p, k) by {
            if k > n {
                assert(k + p.len() > s.len());
            }
        }
    }
}

// ---- numbers ----

/// The value of a row of digits: each further digit counts once, and all before it tenfold.
pub proof fn law_value_of_digits(s: Seq<char>, d: nat)
    requires
        d < 10,
        forall|i: int| 0 <= i < s.len() ==> is_digit(#[trigger] s[i]),
    ensures
        digits_value(Seq::empty()) == 0,
        digits_value(s.push((0x30 + d) as char)) == digits_value(s) * 10 + d,
{
    let c = (0x30 + d) as char;
    assert(s.push(c).drop_last() =~= s);
    assert(c as u32 == 0x30 + d);
}

/// A text is read as a number exactly where it is a row of digits, with a plus sign in front
/// of it or not, and its value is not too large; and then that value is what is read.
pub proof fn law_reading_numbers(s: Seq<char>, max: nat)
    requires
        s.len() > 0 ==> s[0] != '+',
    ensures
        ({
            let number = s.len() > 0 && forall|i: int|
                0 <= i < s.len() ==> '0' <= (#[trigger] s[i]) <= '9';
            &&& number && digits_value(s) <= max ==> unsigned(s, max) == Some(digits_value(s))
            &&& !(number && digits_value(s) <= max) ==> unsigned(s, max) is None
            &&& unsigned(seq!['+'] + s, max) == unsigned(s, max)
        }),
{
    let t = seq!['+'] + s;
    assert(t[0] == '+');
    assert(t.skip(1) =~= s);
    assert(unsigned_digits(s) == s);
    assert(unsigned_digits(t) == s);
}

/// Different numbers have different decimal forms, and no form has a needless zero in front.
pub proof fn law_decimal_forms(n: nat, m: nat)
    ensures
        decimal(n) == decimal(m) <==> n == m,
        decimal(n).len() > 1 ==> decimal(n)[0] != '0',
        digits_value(decimal(n)) == n,
        forall|i: int| 0 <= i < decimal(n).len() ==> '0' <= (#[trigger] decimal(n)[i]) <= '9',
    decreases n,
{
    lemma_decimal(n);
    lemma_decimal(m);
    if n >= 10 {
        law_decimal_forms(n / 10, m);
        lemma_decimal(n / 10);
        let front = decimal(n / 10);
        assert(decimal(n)[0] == front[0]);
        if front.len() == 1 {
            assert(n / 10 < 10) by {
                if n / 10 >= 10 {
                    lemma_decimal(n / 10 / 10);
                }
            }
            assert(front[0] as u32 == 0x30 + n / 10);
        }
    }
}

/// A number below zero is written with a minus sign before its amount, and any other as it
/// is.
pub proof fn law_signed_forms(n: int)
    ensures
        n >= 0 ==> signed_decimal(n) == decimal(n as nat),
        n < 0 ==> signed_decimal(n) == seq!['-'] + decimal((0 - n) as nat),
{
}

// ---- wide text ----

/// A text and a further character give the code units of the text and then those of the
/// character: one that is the character itself, or two that it can be put together from.
pub proof fn law_wide_text(s: Seq<char>, c: char)
    ensures
        units(Seq::empty()).len() == 0,
        units(s.push(c)) == units(s) + char_units(c),
        (c as u32) < 0x10000 ==> char_units(c).len() == 1 && char_units(c)[0] as u32 == c as u32,
        (c as u32) >= 0x10000 ==> {
            let u = char_units(c);
            &&& u.len() == 2
            &&& 0xd800 <= u[0] < 0xdc00
            &&& 0xdc00 <= u[1] < 0xe000
            &&& (u[0] - 0xd800) * 0x400 + (u[1] - 0xdc00) + 0x10000 == c as u32
        },
{
    assert(s.push(c).drop_last() =~= s);
    let x = (c as u32 - 0x10000) as int;
    if (c as u32) >= 0x10000 {
        assert(c as u32 <= 0x10ffff);
        assert(0 <= x / 0x400 < 0x400);
        assert(0 <= x % 0x400 < 0x400);
        assert((x / 0x400) * 0x400 + x % 0x400 == x);
    }
}

// ---- the port ----

/// The environment names a port in decimal, with white space around it or not; anything that
/// is no number of at most 65535 leaves the usual port.
pub proof fn law_port_of_the_environment(a: Seq<char>, port: u16, b: Seq<char>, other: Seq<char>)
    requires
        blank(a),
        blank(b),
    ensures
        port_of(Some(a + decimal(port as nat) + b)) == port,
        port_of(None) == 3080,
        unsigned(trim(other), 65535) is None ==> port_of(Some(other)) == 3080,
{
    let d = decimal(port as nat);
    lemma_decimal(port as nat);
    assert(is_digit(d[0]) && is_digit(d[d.len() - 1]));
    law_trimming_takes_off_the_edges(a, d, b);
    assert(unsigned_digits(d) == d);
}

// ---- the log ----

/// The lines of a log are its lines that are not blank, in their order.
pub proof fn law_log_lines(a: Seq<char>, b: Seq<char>)
    requires
        forall|i: int| 0 <= i < a.len() ==> (#[trigger] a[i]) != '\n',
        a.len() == 0 || a.last() != '\r',
    ensures
        log_lines(Seq::empty()).len() == 0,
        log_lines(a.push('\n') + b) == if blank(a) {
            log_lines(b)
        } else {
            seq![a] + log_lines(b)
        },
        !blank(a) ==> log_lines(a) == seq![a],
{
    let keep = |l: Seq<char>| !blank(l);
    law_lines_end_at_line_feeds(a, b);
    lemma_filter_front(a, lines(b), keep);
    lemma_filter_front(a, Seq::empty(), keep);
    reveal(Seq::filter);
    assert(lines(Seq::empty()) =~= Seq::empty());
    assert(Seq::<Seq<char>>::empty() + log_lines(b) =~= log_lines(b));
    assert(seq![a] + Seq::<Seq<char>>::empty() =~= seq![a]);
    assert(Seq::<Seq<char>>::empty().filter(keep) =~= Seq::empty());
    assert(seq![a] + Seq::<Seq<char>>::empty().filter(keep) =~= seq![a]);
}

/// The end of a log is its last lines, as many as are asked for or as there are.
pub proof fn law_end_of_a_log(text: Seq<char>, n: nat, before: Seq<Seq<char>>, end: Seq<Seq<char>>)
    requires
        log_lines(text) == before + end,
    ensures
        end.len() == n ==> tail(text, n) == joined(end, "\n"@),
        before.len() + end.len() <= n ==> tail(text, n) == joined(before + end, "\n"@),
{
    if end.len() == n {
        assert((before + end).skip(before.len() as int) =~= end);
        if before.len() == 0 {
            assert(before + end =~= end);
        }
    }
}

// ---- npm's listing ----

proof fn lemma_first_version(list: Seq<Seq<char>>, i: int, v: Seq<char>)
    requires
        0 <= i < list.len(),
        line_version(list[i]) == Some(v),
        forall|k: int| 0 <= k < i ==> line_version(#[trigger] list[k]) is None,
    ensures
        first_version(list) == Some(v),
    decreases i,
{
    if i > 0 {
        assert(line_version(list[0]) is None);
        let rest = list.drop_first();
        assert(rest[i - 1] == list[i]);
        assert forall|k: int| 0 <= k < i - 1 implies line_version(#[trigger] rest[k]) is None by {
            assert(rest[k] == list[k + 1]);
        }
        lemma_first_version(rest, i - 1, v);
    }
}

proof fn lemma_no_line(list: Seq<Seq<char>>)
    requires
        forall|k: int| 0 <= k < list.len() ==> line_version(#[trigger] list[k]) is None,
    ensures
        first_version(list) is None,
    decreases list.len(),
{
    if list.len() > 0 {
        assert(line_version(list[0]) is None);
        let rest = list.drop_first();
        assert forall|k: int| 0 <= k < rest.len() implies line_version(#[trigger] rest[k]) is None by {
            assert(rest[k] == list[k + 1]);
        }
        lemma_no_line(rest);
    }
}

/// A listing gives a version wherever in it the line with the package stands: the first line
/// that gives one decides, and without such a line there is none.
pub proof fn law_first_line_with_a_version_decides(listing: Seq<char>, i: int, v: Seq<char>)
    ensures
        0 <= i < lines(listing).len() && line_version(lines(listing)[i]) == Some(v) && (forall|
            k: int,
        |
            0 <= k < i ==> line_version(#[trigger] lines(listing)[k]) is None) ==> npm_version(
            listing,
        ) == Some(v),
        (forall|k: int|
            0 <= k < lines(listing).len() ==> line_version(#[trigger] lines(listing)[k]) is None)
            ==> npm_version(listing) is None,
        listed_version(Ok(listing)) == npm_version(listing),
        listed_version(Err(listing)) is None,
{
    let all = lines(listing);
    if 0 <= i < all.len() && line_version(all[i]) == Some(v) && (forall|k: int|
        0 <= k < i ==> line_version(#[trigger] all[k]) is None) {
        lemma_first_version(all, i, v);
    }
    if forall|k: int| 0 <= k < all.len() ==> line_version(#[trigger] all[k]) is None {
        lemma_no_line(all);
    }
}

/// A line gives the first word behind the last mark of the package; without the mark, or
/// with nothing but white space behind it, it gives none.
pub proof fn law_line_of_the_package(line: Seq<char>)
    ensures
        package_mark() == "@deepseek-ai/dsh@"@,
        !contains(line, "@deepseek-ai/dsh@"@) ==> line_version(line) is None,
        contains(line, "@deepseek-ai/dsh@"@) ==> {
            let rest = after_last(line, "@deepseek-ai/dsh@"@)->0;
            &&& words(rest).len() == 0 ==> line_version(line) is None
            &&& words(rest).len() > 0 ==> line_version(line) == Some(words(rest)[0])
        },
{
    law_what_follows_the_last(line, "@deepseek-ai/dsh@"@);
}

/// The version in the global prefix counts, and without one the version in the user's
/// prefix.
pub proof fn law_global_prefix_counts_first(
    global: Result<Seq<char>, Seq<char>>,
    user: Result<Seq<char>, Seq<char>>,
)
    ensures
        listed_version(global) is Some ==> installed_version(global, user) == listed_version(global),
        listed_version(global) is None ==> installed_version(global, user) == listed_version(user),
{
}

/// What a program has printed is taken without the white space around it, and a program that
/// failed has printed nothing.
pub proof fn law_output_is_trimmed(out: Seq<char>)
    ensures
        trimmed_output(Ok(out)) == trim(out),
        trimmed_output(Err(out)).len() == 0,
{
}

// ---- the parts of a version ----

/// Identifiers stand between dots. Each is a row of digits, letters and hyphens, and a
/// number among them has no needless zero in front where that matters.
pub proof fn law_identifiers_stand_between_dots(a: Seq<char>, b: Seq<char>, strict: bool)
    requires
        forall|i: int| 0 <= i < a.len() ==> (#[trigger] a[i]) != '.',
    ensures
        ({
            let one = a.len() > 0 && (forall|i: int|
                0 <= i < a.len() ==> {
                    let c = #[trigger] a[i];
                    '0' <= c <= '9' || 'A' <= c <= 'Z' || 'a' <= c <= 'z' || c == '-'
                }) && !(strict && a.len() > 1 && a[0] == '0' && (forall|i: int|
                0 <= i < a.len() ==> '0' <= (#[trigger] a[i]) <= '9'));
            &&& identifiers(a, strict) <==> one
            &&& identifiers(a.push('.') + b, strict) <==> one && identifiers(b, strict)
        }),
{
    let cut = Cut::At('.');
    law_cutting(a, '.', b, cut);
    let p = pieces(a.push('.') + b, cut);
    let q = pieces(b, cut);
    let single = pieces(a, cut);
    assert(single[0] == a);
    assert(p[0] == a);
    let good = |x: Seq<char>|
        x.len() > 0 && (forall|k: int| 0 <= k < x.len() ==> identifier_char(#[trigger] x[k])) && !(
        strict && leading_zero(x));
    assert(good(a) <==> identifiers(a, strict));
    if identifiers(a.push('.') + b, strict) {
        assert(p[0].len() > 0);
        assert(good(p[0]));
        assert forall|i: int| 0 <= i < q.len() implies good(#[trigger] q[i]) by {
            assert(p[i + 1] == q[i]);
            assert(p[i + 1].len() > 0);
        }
        assert forall|i: int| 0 <= i < q.len() implies {
            &&& (#[trigger] q[i]).len() > 0
            &&& forall|k: int| 0 <= k < q[i].len() ==> identifier_char(#[trigger] q[i][k])
            &&& !(strict && leading_zero(q[i]))
        } by {
            assert(good(q[i]));
        }
    }
    if good(a) && identifiers(b, strict) {
        assert forall|i: int| 0 <= i < p.len() implies {
            &&& (#[trigger] p[i]).len() > 0
            &&& forall|k: int| 0 <= k < p[i].len() ==> identifier_char(#[trigger] p[i][k])
            &&& !(strict && leading_zero(p[i]))
        } by {
            if i > 0 {
                assert(p[i] == q[i - 1]);
                assert(q[i - 1].len() > 0);
            } else {
                assert(good(p[0]));
            }
        }
    }
}

/// A version is well-formed where its pre-release part and its build metadata are rows of
/// identifiers or empty; only the pre-release part minds needless zeros.
pub proof fn law_well_formed_version(v: VersionView)
    ensures
        valid_version(v) <==> (v.pre.len() == 0 || identifiers(v.pre, true)) && (v.build.len() == 0
            || identifiers(v.build, false)),
{
}

// ---- the processes that listen ----

/// A line of the listing whose second word ends with the port, that says that it listens and
/// whose last word is the number of a process, names that process, however large the number
/// is; process zero is nobody.
pub proof fn law_every_listener_is_found(line: Seq<char>, port: u16, pid: u32)
    requires
        words(line).len() >= 2,
        ends_with(words(line)[1], ":"@ + decimal(port as nat)),
        contains(line, "LISTENING"@),
        words(line).last() == decimal(pid as nat),
    ensures
        pid > 0 ==> listener(line, port) == Some(pid),
        pid == 0 ==> listener(line, port) is None,
{
    let d = decimal(pid as nat);
    lemma_decimal(pid as nat);
    assert(is_digit(d[0]));
    assert(unsigned_digits(d) == d);
}

/// A line of the listing names a process only where its last word is the number of that
/// process, its second word ends with the port, and it says that it listens.
pub proof fn law_only_listeners_are_found(line: Seq<char>, port: u16)
    requires
        listener(line, port) is Some,
    ensures
        words(line).len() >= 2,
        ends_with(words(line)[1], ":"@ + decimal(port as nat)),
        contains(line, "LISTENING"@),
        unsigned(words(line).last(), 0xffff_ffff) == Some(listener(line, port)->0 as nat),
        listener(line, port)->0 > 0,
{
}

/// A process that listens on one port is not named for another, also where the one ends with
/// the digits of the other.
pub proof fn law_other_ports_are_left_alone(line: Seq<char>, host: Seq<char>, port: u16, other: u16)
    requires
        words(line).len() >= 2,
        words(line)[1] == host + ":"@ + decimal(other as nat),
        port != other,
    ensures
        listener(line, port) is None,
{
    if listener(line, port) is Some {
        let p = decimal(port as nat);
        let q = decimal(other as nat);
        lemma_decimal(port as nat);
        lemma_decimal(other as nat);
        reveal_strlit(":");
        let colon = ":"@;
        assert(colon.len() == 1 && colon[0] == ':');
        let s = host + colon + q;
        let n = s.len() - (colon + p).len();
        let end = s.subrange(n, n + (colon + p).len());
        assert(end == colon + p);
        assert(end[0] == ':');
        assert(s[n] == ':');
        if p.len() < q.len() {
            let k = q.len() - p.len() - 1;
            assert(s[n] == q[k]);
            assert(is_digit(q[k]));
        } else if p.len() > q.len() {
            let k = p.len() - q.len() - 1;
            assert(s[host.len() as int] == ':');
            assert(end[k + 1] == s[host.len() as int]);
            assert((colon + p)[k + 1] == p[k]);
            assert(is_digit(p[k]));
        } else {
            assert(p =~= q) by {
                assert forall|k: int| 0 <= k < p.len() implies p[k] == q[k] by {
                    assert((colon + p)[k + 1] == p[k]);
                    assert(end[k + 1] == s[n + k + 1]);
                    assert(s[n + k + 1] == q[k]);
                }
            }
        }
    }
}

} // verus!
