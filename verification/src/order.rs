//! The order of versions.

use crate::outside::{numeric, VersionView};
use crate::text::{decimal, digits_value, is_digit, lemma_decimal, lemma_pieces_some, pieces, Cut};
use vstd::prelude::*;

verus! {

/// How one version stands to another.
#[derive(Clone, Copy, Debug, PartialEq, Eq, Structural)]
pub enum Precedence {
    Older,
    Same,
    Newer,
}

/// The other way round.
pub open spec fn reverse(p: Precedence) -> Precedence {
    match p {
        Precedence::Older => Precedence::Newer,
        Precedence::Same => Precedence::Same,
        Precedence::Newer => Precedence::Older,
    }
}

/// How the numbers of `a` stand to those of `b`, from left to right.
pub open spec fn number_order(a: VersionView, b: VersionView) -> Precedence {
    if a.major != b.major {
        if a.major > b.major {
            Precedence::Newer
        } else {
            Precedence::Older
        }
    } else if a.minor != b.minor {
        if a.minor > b.minor {
            Precedence::Newer
        } else {
            Precedence::Older
        }
    } else if a.patch != b.patch {
        if a.patch > b.patch {
            Precedence::Newer
        } else {
            Precedence::Older
        }
    } else {
        Precedence::Same
    }
}

/// How `a` stands to `b` in the order of a dictionary.
pub open spec fn dictionary_order(a: Seq<char>, b: Seq<char>) -> Precedence
    decreases a.len(),
{
    if a.len() == 0 && b.len() == 0 {
        Precedence::Same
    } else if a.len() == 0 {
        Precedence::Older
    } else if b.len() == 0 {
        Precedence::Newer
    } else if a[0] != b[0] {
        if a[0] > b[0] {
            Precedence::Newer
        } else {
            Precedence::Older
        }
    } else {
        dictionary_order(a.drop_first(), b.drop_first())
    }
}

/// How one identifier stands to another: numbers by their value and then by the zeros in
/// front of them, others as in a dictionary, and a number is older than what is none.
pub open spec fn identifier_order(a: Seq<char>, b: Seq<char>) -> Precedence {
    if numeric(a) && numeric(b) {
        if digits_value(a) > digits_value(b) {
            Precedence::Newer
        } else if digits_value(a) < digits_value(b) {
            Precedence::Older
        } else if a.len() > b.len() {
            Precedence::Newer
        } else if a.len() < b.len() {
            Precedence::Older
        } else {
            Precedence::Same
        }
    } else if numeric(a) {
        Precedence::Older
    } else if numeric(b) {
        Precedence::Newer
    } else {
        dictionary_order(a, b)
    }
}

/// How one row of identifiers stands to another: the first difference decides, and where
/// one row is the start of the other, the longer one is newer.
pub open spec fn row_order(a: Seq<Seq<char>>, b: Seq<Seq<char>>) -> Precedence
    decreases a.len(),
{
    if a.len() == 0 && b.len() == 0 {
        Precedence::Same
    } else if a.len() == 0 {
        Precedence::Older
    } else if b.len() == 0 {
        Precedence::Newer
    } else if identifier_order(a[0], b[0]) != Precedence::Same {
        identifier_order(a[0], b[0])
    } else {
        row_order(a.drop_first(), b.drop_first())
    }
}

/// How one pre-release part stands to another. A release, which has none, is newer than
/// its pre-releases.
pub open spec fn pre_order(a: Seq<char>, b: Seq<char>) -> Precedence {
    if a.len() == 0 && b.len() == 0 {
        Precedence::Same
    } else if a.len() == 0 {
        Precedence::Newer
    } else if b.len() == 0 {
        Precedence::Older
    } else {
        row_order(pieces(a, Cut::At('.')), pieces(b, Cut::At('.')))
    }
}

/// How one version stands to another: the numbers decide first, then the pre-release parts,
/// then the build metadata.
pub open spec fn version_order(a: VersionView, b: VersionView) -> Precedence {
    if number_order(a, b) != Precedence::Same {
        number_order(a, b)
    } else if pre_order(a.pre, b.pre) != Precedence::Same {
        pre_order(a.pre, b.pre)
    } else {
        row_order(pieces(a.build, Cut::At('.')), pieces(b.build, Cut::At('.')))
    }
}

// ---- exchange ----

proof fn lemma_dictionary_reversed(a: Seq<char>, b: Seq<char>)
    ensures
        dictionary_order(b, a) == reverse(dictionary_order(a, b)),
    decreases a.len(),
{
    if a.len() > 0 && b.len() > 0 {
        lemma_dictionary_reversed(a.drop_first(), b.drop_first());
    }
}

proof fn lemma_row_reversed(a: Seq<Seq<char>>, b: Seq<Seq<char>>)
    ensures
        row_order(b, a) == reverse(row_order(a, b)),
    decreases a.len(),
{
    if a.len() > 0 && b.len() > 0 {
        lemma_dictionary_reversed(a[0], b[0]);
        lemma_row_reversed(a.drop_first(), b.drop_first());
    }
}

/// The order of versions is reversed when the versions are exchanged.
pub proof fn law_order_is_reversed(v: VersionView, w: VersionView)
    ensures
        version_order(w, v) == reverse(version_order(v, w)),
{
    lemma_row_reversed(pieces(v.pre, Cut::At('.')), pieces(w.pre, Cut::At('.')));
    lemma_row_reversed(pieces(v.build, Cut::At('.')), pieces(w.build, Cut::At('.')));
}

// ---- equality ----

proof fn lemma_dictionary_same(a: Seq<char>, b: Seq<char>)
    ensures
        dictionary_order(a, b) == Precedence::Same <==> a == b,
    decreases a.len(),
{
    if a.len() > 0 && b.len() > 0 {
        lemma_dictionary_same(a.drop_first(), b.drop_first());
        assert(a =~= seq![a[0]] + a.drop_first());
        assert(b =~= seq![b[0]] + b.drop_first());
    } else if a.len() == b.len() {
        assert(a =~= b);
    }
}

proof fn lemma_same_digits(a: Seq<char>, b: Seq<char>)
    requires
        numeric(a),
        numeric(b),
        a.len() == b.len(),
        digits_value(a) == digits_value(b),
    ensures
        a == b,
    decreases a.len(),
{
    if a.len() > 0 {
        let x = a.drop_last();
        let y = b.drop_last();
        assert forall|i: int| 0 <= i < x.len() implies is_digit(#[trigger] x[i]) by {
            assert(x[i] == a[i]);
        }
        assert forall|i: int| 0 <= i < y.len() implies is_digit(#[trigger] y[i]) by {
            assert(y[i] == b[i]);
        }
        assert(is_digit(a[a.len() - 1]) && is_digit(b[b.len() - 1]));
        lemma_same_digits(x, y);
        assert(x.push(a.last()) =~= a);
        assert(y.push(b.last()) =~= b);
    } else {
        assert(a =~= b);
    }
}

proof fn lemma_identifier_same(a: Seq<char>, b: Seq<char>)
    ensures
        identifier_order(a, b) == Precedence::Same <==> a == b,
{
    lemma_dictionary_same(a, b);
    if numeric(a) && numeric(b) && identifier_order(a, b) == Precedence::Same {
        lemma_same_digits(a, b);
    }
}

proof fn lemma_row_same(a: Seq<Seq<char>>, b: Seq<Seq<char>>)
    ensures
        row_order(a, b) == Precedence::Same <==> a == b,
    decreases a.len(),
{
    if a.len() > 0 && b.len() > 0 {
        lemma_identifier_same(a[0], b[0]);
        lemma_row_same(a.drop_first(), b.drop_first());
        assert(a =~= seq![a[0]] + a.drop_first());
        assert(b =~= seq![b[0]] + b.drop_first());
    } else if a.len() == b.len() {
        assert(a =~= b);
    }
}

proof fn lemma_pieces_same(a: Seq<char>, b: Seq<char>, mark: char)
    requires
        pieces(a, Cut::At(mark)) == pieces(b, Cut::At(mark)),
    ensures
        a == b,
    decreases a.len() + b.len(),
{
    let cut = Cut::At(mark);
    let p = pieces(a, cut);
    let x = a.drop_last();
    let y = b.drop_last();
    if a.len() == 0 && b.len() == 0 {
        assert(a =~= b);
    } else if a.len() == 0 {
        lemma_pieces_some(y, cut);
        assert(p.last().len() == 0 && p.len() == 1);
    } else if b.len() == 0 {
        lemma_pieces_some(x, cut);
        assert(p.last().len() == 0 && p.len() == 1);
    } else {
        lemma_pieces_some(x, cut);
        lemma_pieces_some(y, cut);
        let u = pieces(x, cut);
        let v = pieces(y, cut);
        if a.last() == mark {
            assert(p.last().len() == 0);
            assert(b.last() == mark);
            assert(u =~= p.drop_last());
            assert(v =~= p.drop_last());
        } else {
            assert(p.last() == u.last().push(a.last()));
            assert(b.last() != mark);
            assert(p.last() == v.last().push(b.last()));
            assert(u.last() =~= p.last().drop_last());
            assert(v.last() =~= p.last().drop_last());
            assert(a.last() == p.last().last() && b.last() == p.last().last());
            assert(u.drop_last() =~= p.drop_last());
            assert(v.drop_last() =~= p.drop_last());
            assert(u =~= u.drop_last().push(u.last()));
            assert(v =~= v.drop_last().push(v.last()));
        }
        lemma_pieces_same(x, y, mark);
        assert(x.push(a.last()) =~= a);
        assert(y.push(b.last()) =~= b);
    }
}

/// Only equal versions are the same in the order of versions.
pub proof fn law_only_equal_versions_are_the_same(v: VersionView, w: VersionView)
    ensures
        version_order(v, w) == Precedence::Same <==> v == w,
{
    let cut = Cut::At('.');
    lemma_row_same(pieces(v.pre, cut), pieces(w.pre, cut));
    lemma_row_same(pieces(v.build, cut), pieces(w.build, cut));
    if version_order(v, w) == Precedence::Same {
        lemma_pieces_same(v.build, w.build, '.');
        if v.pre.len() > 0 {
            lemma_pieces_same(v.pre, w.pre, '.');
        } else {
            assert(v.pre =~= w.pre);
        }
    }
}

// ---- releases and candidates ----

/// A release is newer than each of its pre-releases.
pub proof fn law_release_is_newer_than_its_candidates(v: VersionView, w: VersionView)
    requires
        number_order(v, w) == Precedence::Same,
        v.pre.len() == 0,
        w.pre.len() > 0,
    ensures
        version_order(v, w) == Precedence::Newer,
{
}

proof fn lemma_row_with_last(base: Seq<Seq<char>>, x: Seq<char>, y: Seq<char>)
    ensures
        row_order(base.push(x), base.push(y)) == identifier_order(x, y),
    decreases base.len(),
{
    let a = base.push(x);
    let b = base.push(y);
    if base.len() > 0 {
        lemma_identifier_same(base[0], base[0]);
        assert(a[0] == base[0] && b[0] == base[0]);
        assert(a.drop_first() =~= base.drop_first().push(x));
        assert(b.drop_first() =~= base.drop_first().push(y));
        lemma_row_with_last(base.drop_first(), x, y);
    } else {
        assert(a[0] == x && b[0] == y);
        assert(row_order(a.drop_first(), b.drop_first()) == Precedence::Same);
    }
}

proof fn lemma_pieces_behind_mark(s: Seq<char>, mark: char, t: Seq<char>)
    requires
        forall|i: int| 0 <= i < t.len() ==> (#[trigger] t[i]) != mark,
    ensures
        pieces(s.push(mark) + t, Cut::At(mark)) == pieces(s, Cut::At(mark)).push(t),
    decreases t.len(),
{
    let whole = s.push(mark) + t;
    if t.len() == 0 {
        assert(whole =~= s.push(mark));
        assert(whole.drop_last() =~= s);
        assert(t =~= Seq::empty());
    } else {
        let front = t.drop_last();
        assert forall|i: int| 0 <= i < front.len() implies (#[trigger] front[i]) != mark by {
            assert(front[i] == t[i]);
        }
        lemma_pieces_behind_mark(s, mark, front);
        assert(whole.drop_last() =~= s.push(mark) + front);
        assert(whole.last() == t[t.len() - 1]);
        assert(front.push(t.last()) =~= t);
        assert(pieces(whole, Cut::At(mark)) =~= pieces(s, Cut::At(mark)).push(t));
    }
}

/// Of two pre-releases that differ in the number they end with, the one with the higher
/// number is newer, however many digits it has: rc.10 comes after rc.7.
pub proof fn law_later_candidate_is_newer(
    v: VersionView,
    w: VersionView,
    base: Seq<char>,
    n: nat,
    m: nat,
)
    requires
        number_order(v, w) == Precedence::Same,
        v.pre == base.push('.') + decimal(n),
        w.pre == base.push('.') + decimal(m),
        n > m,
    ensures
        version_order(v, w) == Precedence::Newer,
{
    lemma_decimal(n);
    lemma_decimal(m);
    assert(numeric(decimal(n)) && numeric(decimal(m)));
    lemma_pieces_behind_mark(base, '.', decimal(n));
    lemma_pieces_behind_mark(base, '.', decimal(m));
    lemma_row_with_last(pieces(base, Cut::At('.')), decimal(n), decimal(m));
    assert(pre_order(v.pre, w.pre) == identifier_order(decimal(n), decimal(m)));
}

// ---- what decides ----

/// The numbers decide before anything else, from left to right.
pub proof fn law_numbers_decide_first(v: VersionView, w: VersionView)
    ensures
        v.major > w.major ==> version_order(v, w) == Precedence::Newer,
        v.major == w.major && v.minor > w.minor ==> version_order(v, w) == Precedence::Newer,
        v.major == w.major && v.minor == w.minor && v.patch > w.patch ==> version_order(v, w)
            == Precedence::Newer,
{
}

/// The build metadata decide only where all else is equal.
pub proof fn law_build_metadata_decide_last(v: VersionView, w: VersionView)
    requires
        number_order(v, w) == Precedence::Same,
    ensures
        v.pre != w.pre ==> version_order(v, w) == pre_order(v.pre, w.pre),
        v.pre == w.pre ==> version_order(v, w) == row_order(
            pieces(v.build, Cut::At('.')),
            pieces(w.build, Cut::At('.')),
        ),
{
    let cut = Cut::At('.');
    lemma_row_same(pieces(v.pre, cut), pieces(w.pre, cut));
    if v.pre != w.pre && pre_order(v.pre, w.pre) == Precedence::Same {
        if v.pre.len() > 0 {
            lemma_pieces_same(v.pre, w.pre, '.');
        } else {
            assert(v.pre =~= w.pre);
        }
    }
}

/// Of two rows with the same start, the next identifiers decide; the longer row is newer
/// where the shorter one is its start.
pub proof fn law_rows_are_compared_from_the_left(
    start: Seq<Seq<char>>,
    x: Seq<char>,
    y: Seq<char>,
    a: Seq<Seq<char>>,
    b: Seq<Seq<char>>,
)
    ensures
        x != y ==> row_order(start + (seq![x] + a), start + (seq![y] + b)) == identifier_order(x, y),
        row_order(start + (seq![x] + a), start) == Precedence::Newer,
    decreases start.len(),
{
    let l = start + (seq![x] + a);
    let r = start + (seq![y] + b);
    lemma_identifier_same(x, y);
    if start.len() == 0 {
        assert(l[0] == x && r[0] == y);
        assert(start =~= Seq::empty());
    } else {
        let rest = start.drop_first();
        lemma_identifier_same(start[0], start[0]);
        assert(l[0] == start[0] && r[0] == start[0]);
        assert(l.drop_first() =~= rest + (seq![x] + a));
        assert(r.drop_first() =~= rest + (seq![y] + b));
        law_rows_are_compared_from_the_left(rest, x, y, a, b);
    }
}

/// Identifiers: a number is older than what is none, a larger number is newer, and what is
/// no number is compared character by character.
pub proof fn law_identifiers_are_compared(
    a: Seq<char>,
    b: Seq<char>,
    start: Seq<char>,
    x: char,
    y: char,
)
    ensures
        numeric(a) && !numeric(b) ==> identifier_order(a, b) == Precedence::Older,
        numeric(a) && numeric(b) && digits_value(a) > digits_value(b) ==> identifier_order(a, b)
            == Precedence::Newer,
        !numeric(a) && !numeric(b) ==> identifier_order(a, b) == dictionary_order(a, b),
        x > y ==> dictionary_order(start.push(x) + a, start.push(y) + b) == Precedence::Newer,
        dictionary_order(start.push(x) + a, start) == Precedence::Newer,
    decreases start.len(),
{
    let l = start.push(x) + a;
    let r = start.push(y) + b;
    if start.len() == 0 {
        assert(l[0] == x && r[0] == y);
    } else {
        let rest = start.drop_first();
        assert(l[0] == start[0] && r[0] == start[0]);
        assert(l.drop_first() =~= rest.push(x) + a);
        assert(r.drop_first() =~= rest.push(y) + b);
        law_identifiers_are_compared(a, b, rest, x, y);
    }
}

proof fn lemma_dictionary_transitive(a: Seq<char>, b: Seq<char>, c: Seq<char>)
    requires
        dictionary_order(a, b) == Precedence::Newer,
        dictionary_order(b, c) == Precedence::Newer,
    ensures
        dictionary_order(a, c) == Precedence::Newer,
    decreases a.len(),
{
    if b.len() > 0 && c.len() > 0 && a[0] == b[0] && b[0] == c[0] {
        lemma_dictionary_transitive(a.drop_first(), b.drop_first(), c.drop_first());
    }
}

proof fn lemma_identifier_transitive(a: Seq<char>, b: Seq<char>, c: Seq<char>)
    requires
        identifier_order(a, b) == Precedence::Newer,
        identifier_order(b, c) == Precedence::Newer,
    ensures
        identifier_order(a, c) == Precedence::Newer,
{
    if !numeric(a) && !numeric(b) && !numeric(c) {
        lemma_dictionary_transitive(a, b, c);
    }
}

proof fn lemma_row_transitive(a: Seq<Seq<char>>, b: Seq<Seq<char>>, c: Seq<Seq<char>>)
    requires
        row_order(a, b) == Precedence::Newer,
        row_order(b, c) == Precedence::Newer,
    ensures
        row_order(a, c) == Precedence::Newer,
    decreases a.len(),
{
    if b.len() > 0 && c.len() > 0 {
        lemma_identifier_same(a[0], b[0]);
        lemma_identifier_same(b[0], c[0]);
        lemma_identifier_same(a[0], c[0]);
        if a[0] == b[0] && b[0] == c[0] {
            lemma_row_transitive(a.drop_first(), b.drop_first(), c.drop_first());
        } else if a[0] != b[0] && b[0] != c[0] {
            lemma_identifier_transitive(a[0], b[0], c[0]);
        }
    }
}

/// What is newer than a newer version is newer.
pub proof fn law_order_is_transitive(u: VersionView, v: VersionView, w: VersionView)
    requires
        version_order(u, v) == Precedence::Newer,
        version_order(v, w) == Precedence::Newer,
    ensures
        version_order(u, w) == Precedence::Newer,
{
    let cut = Cut::At('.');
    let (a, b, c) = (pieces(u.pre, cut), pieces(v.pre, cut), pieces(w.pre, cut));
    let (x, y, z) = (pieces(u.build, cut), pieces(v.build, cut), pieces(w.build, cut));
    lemma_row_same(a, b);
    lemma_row_same(b, c);
    lemma_row_same(a, c);
    if row_order(a, b) == Precedence::Newer && row_order(b, c) == Precedence::Newer {
        lemma_row_transitive(a, b, c);
    }
    if row_order(x, y) == Precedence::Newer && row_order(y, z) == Precedence::Newer {
        lemma_row_transitive(x, y, z);
    }
}

} // verus!
