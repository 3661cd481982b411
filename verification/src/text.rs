//! Text over sequences of characters: trimming, lines, words, search and numbers.

use vstd::prelude::*;

verus! {

/// `String::push` appends one character to the end of the string.
pub assume_specification[ String::push ](s: &mut String, ch: char)
    ensures
        final(s)@ == old(s)@.push(ch),
;

/// The characters that Unicode marks as white space.
pub open spec fn white(c: char) -> bool {
    ||| '\u{9}' <= c <= '\u{d}'
    ||| c == ' '
    ||| c == '\u{85}'
    ||| c == '\u{a0}'
    ||| c == '\u{1680}'
    ||| '\u{2000}' <= c <= '\u{200a}'
    ||| c == '\u{2028}'
    ||| c == '\u{2029}'
    ||| c == '\u{202f}'
    ||| c == '\u{205f}'
    ||| c == '\u{3000}'
}

/// Whether `c` is white space.
pub fn is_white(c: char) -> (r: bool)
    ensures
        r == white(c),
{
    ('\u{9}' <= c && c <= '\u{d}') || c == ' ' || c == '\u{85}' || c == '\u{a0}' || c == '\u{1680}'
        || ('\u{2000}' <= c && c <= '\u{200a}') || c == '\u{2028}' || c == '\u{2029}'
        || c == '\u{202f}' || c == '\u{205f}' || c == '\u{3000}'
}

/// The characters of `s`, one by one.
pub fn chars_of(s: &str) -> (r: Vec<char>)
    ensures
        r@ == s@,
{
    let mut out: Vec<char> = Vec::new();
    for c in it: s.chars()
        invariant
            it.seq() == s@,
            out@ == s@.take(it.index() as int),
    {
        out.push(c);
        assert(s@.take(it.index() as int + 1) =~= s@.take(it.index() as int).push(c));
    }
    assert(s@.take(s@.len() as int) =~= s@);
    out
}

/// The string made of the characters of `v` from `from` up to `to`.
pub fn string_of(v: &Vec<char>, from: usize, to: usize) -> (r: String)
    requires
        from <= to <= v@.len(),
    ensures
        r@ == v@.subrange(from as int, to as int),
{
    let mut out = String::new();
    let mut i: usize = from;
    while i < to
        invariant
            from <= i <= to <= v@.len(),
            out@ =~= v@.subrange(from as int, i as int),
        decreases to - i,
    {
        out.push(v[i]);
        i = i + 1;
    }
    out
}

/// Whether two texts hold the same characters.
pub fn same(a: &str, b: &str) -> (r: bool)
    ensures
        r == (a@ == b@),
{
    a.to_owned() == b.to_owned()
}

/// `a` followed by `b`.
pub fn join2(a: &str, b: &str) -> (r: String)
    ensures
        r@ == a@ + b@,
{
    a.to_owned().concat(b)
}

/// `a`, `b` and `c` in a row.
pub fn join3(a: &str, b: &str, c: &str) -> (r: String)
    ensures
        r@ == a@ + b@ + c@,
{
    a.to_owned().concat(b).concat(c)
}

/// What the strings of a list hold.
pub open spec fn texts(list: Seq<String>) -> Seq<Seq<char>> {
    list.map_values(|s: String| s@)
}

// ---- trimming ----

/// `s` without the white space it starts with.
pub open spec fn trim_start(s: Seq<char>) -> Seq<char>
    decreases s.len(),
{
    if s.len() > 0 && white(s[0]) {
        trim_start(s.drop_first())
    } else {
        s
    }
}

/// `s` without the white space it ends with.
pub open spec fn trim_end(s: Seq<char>) -> Seq<char>
    decreases s.len(),
{
    if s.len() > 0 && white(s.last()) {
        trim_end(s.drop_last())
    } else {
        s
    }
}

/// `s` without the white space around it.
pub open spec fn trim(s: Seq<char>) -> Seq<char> {
    trim_end(trim_start(s))
}

/// `s` without the run of `c` it starts with.
pub open spec fn strip_start(s: Seq<char>, c: char) -> Seq<char>
    decreases s.len(),
{
    if s.len() > 0 && s[0] == c {
        strip_start(s.drop_first(), c)
    } else {
        s
    }
}

/// `s` without the white space around it.
pub fn trimmed(s: &str) -> (r: String)
    ensures
        r@ == trim(s@),
{
    let v = chars_of(s);
    let mut i: usize = 0;
    assert(v@.skip(0) =~= v@);
    while i < v.len() && is_white(v[i])
        invariant
            i <= v@.len(),
            trim_start(v@.skip(i as int)) == trim_start(v@),
        decreases v@.len() - i,
    {
        assert(v@.skip(i as int).drop_first() =~= v@.skip(i + 1));
        i = i + 1;
    }
    let mut j: usize = v.len();
    assert(v@.subrange(i as int, j as int) =~= v@.skip(i as int));
    while i < j && is_white(v[j - 1])
        invariant
            i <= j <= v@.len(),
            trim_end(v@.subrange(i as int, j as int)) == trim(v@),
        decreases j - i,
    {
        assert(v@.subrange(i as int, j as int).drop_last() =~= v@.subrange(i as int, j - 1));
        j = j - 1;
    }
    string_of(&v, i, j)
}

/// `s` without the run of `c` it starts with.
pub fn stripped_start(s: &str, c: char) -> (r: String)
    ensures
        r@ == strip_start(s@, c),
{
    let v = chars_of(s);
    let mut i: usize = 0;
    assert(v@.skip(0) =~= v@);
    while i < v.len() && v[i] == c
        invariant
            i <= v@.len(),
            strip_start(v@.skip(i as int), c) == strip_start(v@, c),
        decreases v@.len() - i,
    {
        assert(v@.skip(i as int).drop_first() =~= v@.skip(i + 1));
        i = i + 1;
    }
    assert(v@.subrange(i as int, v@.len() as int) =~= v@.skip(i as int));
    string_of(&v, i, v.len())
}

/// Whether `s` holds white space at most.
pub open spec fn blank(s: Seq<char>) -> bool {
    forall|i: int| 0 <= i < s.len() ==> white(#[trigger] s[i])
}

/// Trimming leaves nothing of blank text, and something of any other.
pub proof fn lemma_trim_blank(s: Seq<char>)
    ensures
        trim(s).len() == 0 <==> blank(s),
    decreases s.len(),
{
    lemma_trim_start_blank(s);
    lemma_trim_end_blank(trim_start(s));
}

proof fn lemma_trim_start_blank(s: Seq<char>)
    ensures
        blank(trim_start(s)) <==> blank(s),
    decreases s.len(),
{
    if s.len() > 0 && white(s[0]) {
        lemma_trim_start_blank(s.drop_first());
        let t = s.drop_first();
        assert(blank(t) ==> blank(s)) by {
            if blank(t) {
                assert forall|i: int| 0 <= i < s.len() implies white(#[trigger] s[i]) by {
                    if i > 0 {
                        assert(t[i - 1] == s[i]);
                    }
                }
            }
        }
        assert(blank(s) ==> blank(t)) by {
            if blank(s) {
                assert forall|i: int| 0 <= i < t.len() implies white(#[trigger] t[i]) by {
                    assert(t[i] == s[i + 1]);
                }
            }
        }
    }
}

proof fn lemma_trim_end_blank(s: Seq<char>)
    ensures
        trim_end(s).len() == 0 <==> blank(s),
    decreases s.len(),
{
    if s.len() > 0 && white(s.last()) {
        let t = s.drop_last();
        lemma_trim_end_blank(t);
        assert(blank(t) ==> blank(s)) by {
            if blank(t) {
                assert forall|i: int| 0 <= i < s.len() implies white(#[trigger] s[i]) by {
                    if i < t.len() {
                        assert(t[i] == s[i]);
                    }
                }
            }
        }
        assert(blank(s) ==> blank(t)) by {
            if blank(s) {
                assert forall|i: int| 0 <= i < t.len() implies white(#[trigger] t[i]) by {
                    assert(t[i] == s[i]);
                }
            }
        }
    } else if s.len() > 0 {
        assert(!white(s[s.len() - 1]));
    }
}

/// Trimming makes no text longer.
pub proof fn lemma_trim_shorter(s: Seq<char>)
    ensures
        trim(s).len() <= s.len(),
{
    lemma_trim_start_shorter(s);
    lemma_trim_end_shorter(trim_start(s));
}

proof fn lemma_trim_start_shorter(s: Seq<char>)
    ensures
        trim_start(s).len() <= s.len(),
    decreases s.len(),
{
    if s.len() > 0 && white(s[0]) {
        lemma_trim_start_shorter(s.drop_first());
    }
}

proof fn lemma_trim_end_shorter(s: Seq<char>)
    ensures
        trim_end(s).len() <= s.len(),
    decreases s.len(),
{
    if s.len() > 0 && white(s.last()) {
        lemma_trim_end_shorter(s.drop_last());
    }
}

/// Whether `s` holds white space at most.
pub fn is_blank(s: &str) -> (r: bool)
    ensures
        r == blank(s@),
{
    proof {
        lemma_trim_blank(s@);
    }
    trimmed(s).as_str().is_empty()
}

// ---- cutting ----

/// What text is cut at: one character, or any white space.
#[derive(Clone, Copy)]
pub enum Cut {
    At(char),
    White,
}

/// Whether `cut` cuts at `c`.
pub open spec fn cuts(cut: Cut, c: char) -> bool {
    match cut {
        Cut::At(mark) => c == mark,
        Cut::White => white(c),
    }
}

/// The pieces of `s` between the characters it is cut at, empty ones included.
pub open spec fn pieces(s: Seq<char>, cut: Cut) -> Seq<Seq<char>>
    decreases s.len(),
{
    if s.len() == 0 {
        seq![Seq::empty()]
    } else {
        let before = pieces(s.drop_last(), cut);
        if cuts(cut, s.last()) {
            before.push(Seq::empty())
        } else {
            before.drop_last().push(before.last().push(s.last()))
        }
    }
}

/// There is always a piece, though it may be empty.
pub proof fn lemma_pieces_some(s: Seq<char>, cut: Cut)
    ensures
        pieces(s, cut).len() >= 1,
    decreases s.len(),
{
    if s.len() > 0 {
        lemma_pieces_some(s.drop_last(), cut);
    }
}

fn cuts_at(cut: Cut, c: char) -> (r: bool)
    ensures
        r == cuts(cut, c),
{
    match cut {
        Cut::At(mark) => c == mark,
        Cut::White => is_white(c),
    }
}

/// The pieces of `s` between the characters it is cut at, empty ones included.
pub fn cut_text(s: &str, cut: Cut) -> (r: Vec<String>)
    ensures
        texts(r@) == pieces(s@, cut),
        r@.len() >= 1,
{
    let v = chars_of(s);
    let mut out: Vec<String> = Vec::new();
    let mut cur = String::new();
    let mut i: usize = 0;
    assert(v@.take(0) =~= Seq::<char>::empty());
    assert(texts(out@) =~= pieces(v@.take(0), cut).drop_last());
    while i < v.len()
        invariant
            i <= v@.len(),
            pieces(v@.take(i as int), cut).len() >= 1,
            texts(out@) == pieces(v@.take(i as int), cut).drop_last(),
            cur@ == pieces(v@.take(i as int), cut).last(),
        decreases v@.len() - i,
    {
        let c = v[i];
        let ghost before = pieces(v@.take(i as int), cut);
        let ghost out_before = out@;
        assert(v@.take(i + 1).drop_last() =~= v@.take(i as int));
        assert(v@.take(i + 1).last() == c);
        if cuts_at(cut, c) {
            out.push(cur);
            cur = String::new();
            assert(texts(out@) =~= before) by {
                assert(texts(out@) =~= texts(out_before).push(before.last()));
                assert(before =~= before.drop_last().push(before.last()));
            }
            assert(pieces(v@.take(i + 1), cut).drop_last() =~= before);
        } else {
            cur.push(c);
            assert(pieces(v@.take(i + 1), cut).drop_last() =~= before.drop_last());
        }
        i = i + 1;
    }
    assert(v@.take(v@.len() as int) =~= v@);
    let ghost out_before = out@;
    out.push(cur);
    assert(texts(out@) =~= pieces(v@, cut)) by {
        assert(texts(out@) =~= texts(out_before).push(pieces(v@, cut).last()));
    }
    out
}

/// The words of `s`: its longest runs without white space.
pub open spec fn words(s: Seq<char>) -> Seq<Seq<char>> {
    pieces(s, Cut::White).filter(|w: Seq<char>| w.len() > 0)
}

/// The words of `s`: its longest runs without white space.
pub fn words_of(s: &str) -> (r: Vec<String>)
    ensures
        texts(r@) == words(s@),
{
    let all = cut_text(s, Cut::White);
    let mut out: Vec<String> = Vec::new();
    let ghost keep = |w: Seq<char>| w.len() > 0;
    let mut i: usize = 0;
    assert(texts(all@).take(0).filter(keep) =~= Seq::empty()) by {
        reveal(Seq::filter);
    }
    assert(texts(out@) =~= texts(all@).take(0).filter(keep));
    while i < all.len()
        invariant
            i <= all@.len(),
            keep == (|w: Seq<char>| w.len() > 0),
            texts(out@) == texts(all@).take(i as int).filter(keep),
        decreases all@.len() - i,
    {
        proof {
            reveal(Seq::filter);
            assert(texts(all@).take(i + 1).drop_last() =~= texts(all@).take(i as int));
            assert(texts(all@).take(i + 1).last() == all@[i as int]@);
        }
        let ghost out_before = out@;
        if !all[i].as_str().is_empty() {
            out.push(all[i].clone());
            assert(texts(out@) =~= texts(out_before).push(all@[i as int]@));
        }
        i = i + 1;
    }
    assert(texts(all@).take(all@.len() as int) =~= texts(all@));
    out
}

/// `s` without a carriage return at its end.
pub open spec fn chop_return(s: Seq<char>) -> Seq<char> {
    if s.len() > 0 && s.last() == '\r' {
        s.drop_last()
    } else {
        s
    }
}

/// The lines of `s`. A line ends at a line feed, or at a carriage return and a line
/// feed; what follows the last line feed is a line unless it is empty.
pub open spec fn lines(s: Seq<char>) -> Seq<Seq<char>> {
    let cut = pieces(s, Cut::At('\n'));
    let ended = cut.drop_last().map_values(|l: Seq<char>| chop_return(l));
    if cut.last().len() == 0 {
        ended
    } else {
        ended.push(cut.last())
    }
}

fn chopped_return(s: &String) -> (r: String)
    ensures
        r@ == chop_return(s@),
{
    let v = chars_of(s.as_str());
    if v.len() > 0 && v[v.len() - 1] == '\r' {
        assert(v@.subrange(0, v@.len() - 1) =~= v@.drop_last());
        string_of(&v, 0, v.len() - 1)
    } else {
        s.clone()
    }
}

/// The lines of `s`.
pub fn lines_of(s: &str) -> (r: Vec<String>)
    ensures
        texts(r@) == lines(s@),
{
    let all = cut_text(s, Cut::At('\n'));
    let ghost cut = pieces(s@, Cut::At('\n'));
    let ghost ended = cut.drop_last().map_values(|l: Seq<char>| chop_return(l));
    let n: usize = all.len() - 1;
    let mut out: Vec<String> = Vec::new();
    let mut i: usize = 0;
    assert(texts(out@) =~= ended.take(0));
    while i < n
        invariant
            i <= n,
            n == all@.len() - 1,
            texts(all@) == cut,
            ended == cut.drop_last().map_values(|l: Seq<char>| chop_return(l)),
            texts(out@) == ended.take(i as int),
        decreases n - i,
    {
        let ghost out_before = out@;
        assert(all@[i as int]@ == texts(all@)[i as int]);
        out.push(chopped_return(&all[i]));
        assert(texts(out@) =~= texts(out_before).push(ended[i as int]));
        assert(ended.take(i + 1) =~= ended.take(i as int).push(ended[i as int]));
        i = i + 1;
    }
    assert(ended.take(n as int) =~= ended);
    assert(all@[n as int]@ == texts(all@)[n as int]);
    if !all[n].as_str().is_empty() {
        let ghost out_before = out@;
        out.push(all[n].clone());
        assert(texts(out@) =~= texts(out_before).push(cut.last()));
    }
    out
}

/// The texts of `list` in a row, with `sep` between them.
pub open spec fn joined(list: Seq<Seq<char>>, sep: Seq<char>) -> Seq<char>
    decreases list.len(),
{
    if list.len() == 0 {
        Seq::empty()
    } else if list.len() == 1 {
        list[0]
    } else {
        joined(list.drop_last(), sep) + sep + list.last()
    }
}

/// The texts of `list` from `from` on, in a row, with `sep` between them.
pub fn join_from(list: &Vec<String>, from: usize, sep: &str) -> (r: String)
    requires
        from <= list@.len(),
    ensures
        r@ == joined(texts(list@).skip(from as int), sep@),
{
    let mut out = String::new();
    let mut i: usize = from;
    let ghost all = texts(list@).skip(from as int);
    assert(all.take(0) =~= Seq::empty());
    while i < list.len()
        invariant
            from <= i <= list@.len(),
            all == texts(list@).skip(from as int),
            out@ == joined(all.take(i - from), sep@),
        decreases list@.len() - i,
    {
        assert(all.take(i - from + 1).drop_last() =~= all.take(i - from));
        assert(all.take(i - from + 1).last() == list@[i as int]@);
        if i != from {
            out.append(sep);
        }
        out.append(list[i].as_str());
        proof {
            if i == from {
                assert(Seq::<char>::empty() + list@[i as int]@ =~= list@[i as int]@);
            }
        }
        i = i + 1;
    }
    assert(all.take(list@.len() - from) =~= all);
    out
}

// ---- search ----

/// Whether `p` stands in `s` at position `i`.
pub open spec fn occurs_at(s: Seq<char>, p: Seq<char>, i: int) -> bool {
    &&& 0 <= i
    &&& i + p.len() <= s.len()
    &&& s.subrange(i, i + p.len()) == p
}

/// Whether `p` stands in `s`.
pub open spec fn contains(s: Seq<char>, p: Seq<char>) -> bool {
    exists|i: int| occurs_at(s, p, i)
}

/// Whether `s` ends with `p`.
pub open spec fn ends_with(s: Seq<char>, p: Seq<char>) -> bool {
    occurs_at(s, p, s.len() - p.len())
}

/// The last position in `s`, up to `n`, at which `p` stands.
pub open spec fn last_at(s: Seq<char>, p: Seq<char>, n: int) -> Option<int>
    decreases n + 1,
{
    if n < 0 {
        None
    } else if occurs_at(s, p, n) {
        Some(n)
    } else {
        last_at(s, p, n - 1)
    }
}

/// What follows the last `p` in `s`.
pub open spec fn after_last(s: Seq<char>, p: Seq<char>) -> Option<Seq<char>> {
    match last_at(s, p, s.len() - p.len()) {
        Some(i) => Some(s.skip(i + p.len())),
        None => None,
    }
}

fn stands_at(v: &Vec<char>, p: &Vec<char>, i: usize) -> (r: bool)
    requires
        i + p@.len() <= v@.len(),
    ensures
        r == occurs_at(v@, p@, i as int),
{
    let n: usize = v.len();
    let mut j: usize = 0;
    while j < p.len()
        invariant
            j <= p@.len(),
            i + p@.len() <= v@.len(),
            n == v@.len(),
            forall|k: int| 0 <= k < j ==> v@[i + k] == #[trigger] p@[k],
        decreases p@.len() - j,
    {
        if v[i + j] != p[j] {
            assert(v@.subrange(i as int, i + p@.len())[j as int] != p@[j as int]);
            return false;
        }
        j = j + 1;
    }
    assert(v@.subrange(i as int, i + p@.len()) =~= p@);
    true
}

fn last_position(v: &Vec<char>, p: &Vec<char>) -> (r: Option<usize>)
    ensures
        match r {
            Some(i) => last_at(v@, p@, v@.len() - p@.len()) == Some(i as int) && i + p@.len() <= v@.len(),
            None => last_at(v@, p@, v@.len() - p@.len()) is None,
        },
{
    if p.len() > v.len() {
        return None;
    }
    let mut n: usize = v.len() - p.len();
    loop
        invariant
            n + p@.len() <= v@.len(),
            last_at(v@, p@, v@.len() - p@.len()) == last_at(v@, p@, n as int),
        decreases n,
    {
        if stands_at(v, p, n) {
            return Some(n);
        }
        if n == 0 {
            assert(last_at(v@, p@, -1) is None);
            return None;
        }
        n = n - 1;
    }
}

proof fn lemma_last_at(s: Seq<char>, p: Seq<char>, n: int)
    ensures
        last_at(s, p, n) matches Some(i) ==> i <= n && occurs_at(s, p, i) && (forall|k: int|
            i < k <= n ==> !occurs_at(s, p, k)),
        last_at(s, p, n) is None ==> (forall|k: int| k <= n ==> !occurs_at(s, p, k)),
    decreases n + 1,
{
    if n >= 0 && !occurs_at(s, p, n) {
        lemma_last_at(s, p, n - 1);
    }
}

/// What follows the last `p` in `s`.
pub fn text_after_last(s: &str, p: &str) -> (r: Option<String>)
    ensures
        match r {
            Some(t) => after_last(s@, p@) == Some(t@),
            None => after_last(s@, p@) is None,
        },
{
    let v = chars_of(s);
    let q = chars_of(p);
    match last_position(&v, &q) {
        Some(i) => {
            let n: usize = v.len();
            assert(v@.subrange(i + q@.len(), v@.len() as int) =~= v@.skip(i + q@.len()));
            Some(string_of(&v, i + q.len(), n))
        },
        None => None,
    }
}

/// Whether `p` stands in `s`.
pub fn has_text(s: &str, p: &str) -> (r: bool)
    ensures
        r == contains(s@, p@),
{
    let v = chars_of(s);
    let q = chars_of(p);
    proof {
        lemma_last_at(v@, q@, v@.len() - q@.len());
    }
    match last_position(&v, &q) {
        Some(_) => true,
        None => {
            assert forall|k: int| !occurs_at(v@, q@, k) by {
                if k > v@.len() - q@.len() {
                    assert(k + q@.len() > v@.len());
                }
            }
            false
        },
    }
}

/// Whether `s` ends with `p`.
pub fn text_ends_with(s: &str, p: &str) -> (r: bool)
    ensures
        r == ends_with(s@, p@),
{
    let v = chars_of(s);
    let q = chars_of(p);
    if q.len() > v.len() {
        return false;
    }
    stands_at(&v, &q, v.len() - q.len())
}

// ---- numbers ----

/// The character of a decimal digit.
pub open spec fn digit(d: nat) -> char {
    ('0' as u32 + d) as char
}

/// `n` written in decimal.
pub open spec fn decimal(n: nat) -> Seq<char>
    decreases n,
{
    if n < 10 {
        seq![digit(n)]
    } else {
        decimal(n / 10).push(digit(n % 10))
    }
}

/// `n` written in decimal, with a minus sign if it is negative.
pub open spec fn signed_decimal(n: int) -> Seq<char> {
    if n < 0 {
        seq!['-'] + decimal((-n) as nat)
    } else {
        decimal(n as nat)
    }
}

/// Whether `c` is a decimal digit.
pub open spec fn is_digit(c: char) -> bool {
    '0' <= c <= '9'
}

/// The number that a row of decimal digits stands for.
pub open spec fn digits_value(s: Seq<char>) -> nat
    decreases s.len(),
{
    if s.len() == 0 {
        0
    } else {
        (digits_value(s.drop_last()) * 10 + (s.last() as u32 - '0' as u32)) as nat
    }
}

/// The decimal form of a number is a row of digits that stands for it.
pub proof fn lemma_decimal(n: nat)
    ensures
        decimal(n).len() > 0,
        forall|i: int| 0 <= i < decimal(n).len() ==> is_digit(#[trigger] decimal(n)[i]),
        digits_value(decimal(n)) == n,
    decreases n,
{
    if n < 10 {
        let s = decimal(n);
        assert(s.drop_last() =~= Seq::empty());
        assert(digits_value(s.drop_last()) == 0);
    } else {
        lemma_decimal(n / 10);
        assert(decimal(n).drop_last() =~= decimal(n / 10));
    }
}

/// The digits of a number that may start with a plus sign.
pub open spec fn unsigned_digits(s: Seq<char>) -> Seq<char> {
    if s.len() > 0 && s[0] == '+' {
        s.skip(1)
    } else {
        s
    }
}

/// The number that `s` is the decimal form of, if it is one of at most `max`:
/// digits, at least one, and a plus sign in front of them or not.
pub open spec fn unsigned(s: Seq<char>, max: nat) -> Option<nat> {
    let d = unsigned_digits(s);
    if d.len() > 0 && (forall|i: int| 0 <= i < d.len() ==> is_digit(#[trigger] d[i]))
        && digits_value(d) <= max {
        Some(digits_value(d))
    } else {
        None
    }
}

fn digit_char(d: u64) -> (r: char)
    requires
        d < 10,
    ensures
        r == digit(d as nat),
{
    let b: u8 = 48u8 + d as u8;
    b as char
}

/// `n` written in decimal.
pub fn decimal_of(n: u64) -> (r: String)
    ensures
        r@ == decimal(n as nat),
    decreases n,
{
    if n < 10 {
        let mut out = String::new();
        out.push(digit_char(n));
        assert(out@ =~= seq![digit(n as nat)]);
        out
    } else {
        let mut out = decimal_of(n / 10);
        out.push(digit_char(n % 10));
        out
    }
}

/// `n` written in decimal, with a minus sign if it is negative.
pub fn signed_decimal_of(n: i32) -> (r: String)
    ensures
        r@ == signed_decimal(n as int),
{
    if n < 0 {
        let m: i64 = 0i64 - n as i64;
        proof {
            reveal_strlit("-");
            assert("-"@ =~= seq!['-']);
        }
        join2("-", decimal_of(m as u64).as_str())
    } else {
        decimal_of(n as u64)
    }
}

proof fn lemma_digits_value_grows(s: Seq<char>, n: int)
    requires
        0 <= n <= s.len(),
        forall|i: int| 0 <= i < s.len() ==> is_digit(#[trigger] s[i]),
    ensures
        digits_value(s.take(n)) <= digits_value(s),
    decreases s.len() - n,
{
    if n < s.len() {
        lemma_digits_value_grows(s, n + 1);
        assert(s.take(n + 1).drop_last() =~= s.take(n));
        assert(is_digit(s.take(n + 1).last()));
    } else {
        assert(s.take(n) =~= s);
    }
}

/// The number that `s` is the decimal form of, if it is one of at most `max`.
pub fn parse_unsigned(s: &str, max: u64) -> (r: Option<u64>)
    ensures
        match r {
            Some(n) => unsigned(s@, max as nat) == Some(n as nat),
            None => unsigned(s@, max as nat) is None,
        },
{
    let v = chars_of(s);
    let start: usize = if v.len() > 0 && v[0] == '+' { 1 } else { 0 };
    let ghost d = unsigned_digits(s@);
    assert(d =~= v@.skip(start as int));
    if start == v.len() {
        return None;
    }
    let mut n: u64 = 0;
    let mut i: usize = start;
    assert(d.take(0) =~= Seq::empty());
    while i < v.len()
        invariant
            start <= i <= v@.len(),
            start < v@.len(),
            v@ == s@,
            d == unsigned_digits(s@),
            d == v@.skip(start as int),
            n == digits_value(d.take(i - start)),
            n <= max,
            forall|k: int| 0 <= k < i - start ==> is_digit(#[trigger] d[k]),
        decreases v@.len() - i,
    {
        let c = v[i];
        assert(d[i - start] == c);
        if !('0' <= c && c <= '9') {
            return None;
        }
        let x: u64 = c as u64 - 48;
        assert(d.take(i - start + 1).drop_last() =~= d.take(i - start));
        if x > max || n > max / 10 || n * 10 > max - x {
            proof {
                if forall|k: int| 0 <= k < d.len() ==> is_digit(#[trigger] d[k]) {
                    lemma_digits_value_grows(d, i - start + 1);
                }
            }
            return None;
        }
        n = n * 10 + x;
        i = i + 1;
    }
    assert(d.take(v@.len() - start) =~= d);
    Some(n)
}

// ---- wide text ----

/// The UTF-16 code units of one character.
pub open spec fn char_units(c: char) -> Seq<u16> {
    if (c as u32) < 0x10000 {
        seq![(c as u32) as u16]
    } else {
        let x = (c as u32 - 0x10000) as int;
        seq![(0xd800 + x / 0x400) as u16, (0xdc00 + x % 0x400) as u16]
    }
}

/// The UTF-16 code units of a text.
pub open spec fn units(s: Seq<char>) -> Seq<u16>
    decreases s.len(),
{
    if s.len() == 0 {
        Seq::empty()
    } else {
        units(s.drop_last()) + char_units(s.last())
    }
}

/// The UTF-16 code units of a text, with a zero behind them.
pub fn wide(s: &str) -> (r: Vec<u16>)
    ensures
        r@ == units(s@).push(0),
{
    let v = chars_of(s);
    let mut out: Vec<u16> = Vec::new();
    let mut i: usize = 0;
    assert(v@.take(0) =~= Seq::empty());
    while i < v.len()
        invariant
            i <= v@.len(),
            out@ == units(v@.take(i as int)),
        decreases v@.len() - i,
    {
        let c: char = v[i];
        let n: u32 = c as u32;
        assert(v@.take(i + 1).drop_last() =~= v@.take(i as int));
        let ghost before = out@;
        if n < 0x10000 {
            out.push(n as u16);
            assert(out@ =~= before + char_units(v@[i as int]));
        } else {
            let x: u32 = n - 0x10000;
            out.push((0xd800 + x / 0x400) as u16);
            out.push((0xdc00 + x % 0x400) as u16);
            assert(out@ =~= before + char_units(v@[i as int]));
        }
        i = i + 1;
    }
    assert(v@.take(v@.len() as int) =~= v@);
    out.push(0);
    out
}

} // verus!
