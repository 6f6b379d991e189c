//! Counting the occurrences of a pattern in generated text, and the facts
//! that let a count be taken piece by piece over a concatenation.

use vstd::prelude::*;
use crate::config::NodeConfig;
use crate::fmt::{abs, digit_text, int_text, nat_text, repeat_text, sign_text, tenths_text};

verus! {

/// Whether `s` begins with `p`.
pub open spec fn starts_with(s: Seq<char>, p: Seq<char>) -> bool {
    p.len() <= s.len() && s.take(p.len() as int) == p
}

/// The number of positions of `s` at which `p` begins (overlapping
/// occurrences counted).
pub open spec fn occurrences(s: Seq<char>, p: Seq<char>) -> nat
    decreases s.len(),
{
    if s.len() == 0 {
        0
    } else {
        (if starts_with(s, p) {
            1nat
        } else {
            0nat
        }) + occurrences(s.drop_first(), p)
    }
}

/// Whether the character `c` does not occur in `s`.
#[verifier::opaque]
pub open spec fn free_of(s: Seq<char>, c: char) -> bool {
    forall|i: int| 0 <= i < s.len() ==> s[i] != c
}

/// Whether no end of `s` shorter than `p` is a beginning of `p`: then no
/// occurrence of `p` can start in `s` and run on into what follows.
pub open spec fn no_partial(s: Seq<char>, p: Seq<char>) -> bool {
    forall|i: int|
        0 <= i < s.len() && s.len() - i < p.len() ==> #[trigger] s.skip(i) != p.take(s.len() - i)
}

/// Counting over a concatenation: when no occurrence can straddle the
/// seam, the counts of the two parts add up.
pub proof fn lemma_occurrences_append(x: Seq<char>, y: Seq<char>, p: Seq<char>)
    requires
        p.len() > 0,
        no_partial(x, p),
    ensures
        occurrences(x + y, p) == occurrences(x, p) + occurrences(y, p),
    decreases x.len(),
{
    reveal(free_of);
    if x.len() == 0 {
        assert(x + y =~= y);
    } else {
        let xs = x.drop_first();
        assert((x + y).drop_first() =~= xs + y);
        assert forall|i: int|
            0 <= i < xs.len() && xs.len() - i < p.len() implies #[trigger] xs.skip(i) != p.take(
            xs.len() - i,
        ) by {
            assert(xs.skip(i) =~= x.skip(i + 1));
        }
        lemma_occurrences_append(xs, y, p);
        if x.len() >= p.len() {
            assert((x + y).take(p.len() as int) =~= x.take(p.len() as int));
        } else {
            assert(x.skip(0) =~= x);
            if starts_with(x + y, p) {
                assert(x =~= (x + y).take(p.len() as int).take(x.len() as int));
                assert(x == p.take(x.len() as int));
            }
        }
    }
}

/// Two parts without a partial occurrence at their ends make a whole
/// without one.
pub proof fn lemma_no_partial_append(x: Seq<char>, y: Seq<char>, p: Seq<char>)
    requires
        no_partial(x, p),
        no_partial(y, p),
    ensures
        no_partial(x + y, p),
{
    reveal(free_of);
    let s = x + y;
    assert forall|i: int| 0 <= i < s.len() && s.len() - i < p.len() implies #[trigger] s.skip(i)
        != p.take(s.len() - i) by {
        if i >= x.len() {
            assert(s.skip(i) =~= y.skip(i - x.len()));
        } else {
            if s.skip(i) == p.take(s.len() - i) {
                assert(x.skip(i) =~= s.skip(i).take(x.len() - i));
                assert(x.skip(i) =~= p.take(x.len() - i));
            }
        }
    }
}

/// A text without the first character of `p` holds no occurrence of `p`
/// and no partial one.
pub proof fn lemma_free_inert(y: Seq<char>, p: Seq<char>)
    requires
        p.len() > 0,
        free_of(y, p[0]),
    ensures
        occurrences(y, p) == 0,
        no_partial(y, p),
    decreases y.len(),
{
    reveal(free_of);
    assert forall|i: int| 0 <= i < y.len() && y.len() - i < p.len() implies #[trigger] y.skip(i)
        != p.take(y.len() - i) by {
        assert(y.skip(i)[0] == y[i]);
    }
    if y.len() > 0 {
        if starts_with(y, p) {
            assert(y.take(p.len() as int)[0] == y[0]);
        }
        lemma_free_inert(y.drop_first(), p);
    }
}

/// A text that begins with the first character of `p` but not with its
/// first two, and has that character nowhere else, holds no occurrence of
/// `p` and no partial one.
pub proof fn lemma_false_start(y: Seq<char>, p: Seq<char>)
    requires
        p.len() > 1,
        y.len() > 1,
        y[0] == p[0],
        y[1] != p[1],
        free_of(y.drop_first(), p[0]),
    ensures
        occurrences(y, p) == 0,
        no_partial(y, p),
{
    reveal(free_of);
    lemma_free_inert(y.drop_first(), p);
    if starts_with(y, p) {
        assert(y.take(p.len() as int)[1] == y[1]);
    }
    assert forall|i: int| 0 <= i < y.len() && y.len() - i < p.len() implies #[trigger] y.skip(i)
        != p.take(y.len() - i) by {
        if i == 0 {
            assert(y.skip(0)[1] == y[1]);
        } else {
            assert(y.skip(i) =~= y.drop_first().skip(i - 1));
        }
    }
}

/// A text that begins with `p` and has the first character of `p` nowhere
/// else holds exactly one occurrence of `p` and no partial one.
pub proof fn lemma_true_start(y: Seq<char>, p: Seq<char>)
    requires
        p.len() > 0,
        starts_with(y, p),
        free_of(y.drop_first(), p[0]),
    ensures
        occurrences(y, p) == 1,
        no_partial(y, p),
{
    reveal(free_of);
    lemma_free_inert(y.drop_first(), p);
    assert forall|i: int| 0 <= i < y.len() && y.len() - i < p.len() implies #[trigger] y.skip(i)
        != p.take(y.len() - i) by {
        assert(y.skip(i) =~= y.drop_first().skip(i - 1));
    }
}

/// The empty text has no partial occurrence.
pub proof fn lemma_empty_inert(p: Seq<char>)
    ensures
        no_partial(Seq::<char>::empty(), p),
        occurrences(Seq::<char>::empty(), p) == 0,
{
    reveal(free_of);
}

/// A text that begins with `q` still does after more is appended.
pub proof fn lemma_starts_append(a: Seq<char>, b: Seq<char>, q: Seq<char>)
    requires
        starts_with(a, q),
    ensures
        starts_with(a + b, q),
{
    reveal(free_of);
    assert((a + b).take(q.len() as int) =~= a.take(q.len() as int));
}

/// Joining two texts without `c` gives a text without `c`.
pub proof fn lemma_free_append(a: Seq<char>, b: Seq<char>, c: char)
    requires
        free_of(a, c),
        free_of(b, c),
    ensures
        free_of(a + b, c),
{
    reveal(free_of);
    assert forall|i: int| 0 <= i < (a + b).len() implies (a + b)[i] != c by {
        if i < a.len() {
            assert((a + b)[i] == a[i]);
        } else {
            assert((a + b)[i] == b[i - a.len()]);
        }
    }
}

/// Whether `c` is none of the characters of a printed number: a digit,
/// `-` or `.`.
pub open spec fn not_numeric(c: char) -> bool {
    c != '-' && c != '.' && ((c as u32) < 48 || (c as u32) > 57)
}

/// Decimal digits hold no character outside printed numbers.
pub proof fn lemma_digit_free(d: nat, c: char)
    requires
        not_numeric(c),
    ensures
        free_of(digit_text(d), c),
{
    reveal(free_of);
    reveal_strlit("0");
    reveal_strlit("1");
    reveal_strlit("2");
    reveal_strlit("3");
    reveal_strlit("4");
    reveal_strlit("5");
    reveal_strlit("6");
    reveal_strlit("7");
    reveal_strlit("8");
    reveal_strlit("9");
}

/// A natural number's digits hold no character outside printed numbers.
pub proof fn lemma_nat_free(n: nat, c: char)
    requires
        not_numeric(c),
    ensures
        free_of(nat_text(n), c),
    decreases n,
{
    reveal(free_of);
    lemma_digit_free(n % 10, c);
    if n >= 10 {
        lemma_nat_free(n / 10, c);
        lemma_free_append(nat_text(n / 10), digit_text(n % 10), c);
    } else {
        lemma_digit_free(n, c);
    }
}

/// A number of tenths printed with one decimal holds no character outside
/// printed numbers.
pub proof fn lemma_tenths_free(t: int, c: char)
    requires
        not_numeric(c),
    ensures
        free_of(tenths_text(t), c),
{
    reveal(free_of);
    reveal_strlit("-");
    reveal_strlit(".");
    let n = if t < 0 {
        -t
    } else {
        t
    };
    lemma_nat_free((n / 10) as nat, c);
    lemma_digit_free((n % 10) as nat, c);
    let a = sign_text(t < 0);
    let b = nat_text((n / 10) as nat);
    lemma_free_append(a, b, c);
    lemma_free_append(a + b, "."@, c);
    lemma_free_append(a + b + "."@, digit_text((n % 10) as nat), c);
}

/// An integer printed with `{}` holds no character outside printed
/// numbers.
pub proof fn lemma_int_free(n: int, c: char)
    requires
        not_numeric(c),
    ensures
        free_of(int_text(n), c),
{
    reveal(free_of);
    reveal_strlit("-");
    lemma_nat_free(abs(n), c);
    lemma_free_append(sign_text(n < 0), nat_text(abs(n)), c);
}

/// One step of a count taken piece by piece: appending a part without a
/// partial occurrence at its end adds its count and keeps the whole free
/// of one.
pub proof fn lemma_count_step(x: Seq<char>, y: Seq<char>, p: Seq<char>)
    requires
        p.len() > 0,
        no_partial(x, p),
        no_partial(y, p),
    ensures
        occurrences(x + y, p) == occurrences(x, p) + occurrences(y, p),
        no_partial(x + y, p),
{
    lemma_occurrences_append(x, y, p);
    lemma_no_partial_append(x, y, p);
}

/// Copies of a unit without `c` hold no `c`.
pub proof fn lemma_repeat_free(unit: Seq<char>, n: nat, c: char)
    requires
        free_of(unit, c),
    ensures
        free_of(repeat_text(unit, n), c),
    decreases n,
{
    reveal(free_of);
    if n > 0 {
        lemma_repeat_free(unit, (n - 1) as nat, c);
        lemma_free_append(repeat_text(unit, (n - 1) as nat), unit, c);
    }
}

/// Whether no label in the tree holds the character `c`.
pub open spec fn labels_free_of(node: NodeConfig, c: char) -> bool
    decreases node,
{
    free_of(node.label@, c) && all_labels_free_of(node.children@, c)
}

/// Whether no label in any of the trees holds the character `c`.
pub open spec fn all_labels_free_of(s: Seq<NodeConfig>, c: char) -> bool
    decreases s,
{
    if s.len() == 0 {
        true
    } else {
        all_labels_free_of(s.subrange(0, s.len() - 1), c) && labels_free_of(s[s.len() - 1], c)
    }
}

/// Each tree of a sequence whose labels lack `c` has labels that lack it.
pub proof fn lemma_all_labels_free(s: Seq<NodeConfig>, c: char, j: int)
    requires
        all_labels_free_of(s, c),
        0 <= j < s.len(),
    ensures
        labels_free_of(s[j], c),
    decreases s.len(),
{
    if j < s.len() - 1 {
        let t = s.subrange(0, s.len() - 1);
        assert(t[j] == s[j]);
        lemma_all_labels_free(t, c, j);
    }
}

/// A text shorter than `p` holds no occurrence of it.
pub proof fn lemma_short_no_occurrence(y: Seq<char>, p: Seq<char>)
    requires
        y.len() < p.len(),
    ensures
        occurrences(y, p) == 0,
    decreases y.len(),
{
    if y.len() > 0 {
        lemma_short_no_occurrence(y.drop_first(), p);
    }
}

/// Counting over a concatenation by the last character of the pattern:
/// when the first `p.len() - 1` characters of `y` lack it, no occurrence
/// can straddle the seam, and the counts add up.
pub proof fn lemma_append_by_last(x: Seq<char>, y: Seq<char>, p: Seq<char>)
    requires
        p.len() > 0,
        y.len() >= p.len() - 1,
        free_of(y.take(p.len() - 1), p[p.len() - 1]),
    ensures
        occurrences(x + y, p) == occurrences(x, p) + occurrences(y, p),
    decreases x.len(),
{
    reveal(free_of);
    if x.len() == 0 {
        assert(x + y =~= y);
    } else {
        assert((x + y).drop_first() =~= x.drop_first() + y);
        lemma_append_by_last(x.drop_first(), y, p);
        if x.len() >= p.len() {
            assert((x + y).take(p.len() as int) =~= x.take(p.len() as int));
        } else if starts_with(x + y, p) {
            let j = p.len() - 1 - x.len();
            assert((x + y).take(p.len() as int)[p.len() - 1] == (x + y)[p.len() - 1]);
            assert((x + y)[p.len() - 1] == y[j]);
            assert(y.take(p.len() - 1)[j] == y[j]);
        }
    }
}

/// A text that lacks one of the characters of `p` holds no occurrence of
/// it.
pub proof fn lemma_lacks_no_occurrence(y: Seq<char>, p: Seq<char>, j: int)
    requires
        0 <= j < p.len(),
        free_of(y, p[j]),
    ensures
        occurrences(y, p) == 0,
    decreases y.len(),
{
    reveal(free_of);
    if y.len() > 0 {
        if starts_with(y, p) {
            assert(y.take(p.len() as int)[j] == y[j]);
        }
        lemma_lacks_no_occurrence(y.drop_first(), p, j);
    }
}

/// Appending text that lacks the last character of `p` adds no
/// occurrence.
pub proof fn lemma_append_lacking_last(x: Seq<char>, y: Seq<char>, p: Seq<char>)
    requires
        p.len() > 0,
        free_of(y, p[p.len() - 1]),
    ensures
        occurrences(x + y, p) == occurrences(x, p),
    decreases x.len(),
{
    reveal(free_of);
    lemma_lacks_no_occurrence(y, p, p.len() - 1);
    if x.len() == 0 {
        assert(x + y =~= y);
    } else {
        assert((x + y).drop_first() =~= x.drop_first() + y);
        lemma_append_lacking_last(x.drop_first(), y, p);
        if x.len() >= p.len() {
            assert((x + y).take(p.len() as int) =~= x.take(p.len() as int));
        } else if starts_with(x + y, p) {
            let j = p.len() - 1 - x.len();
            assert((x + y).take(p.len() as int)[p.len() - 1] == (x + y)[p.len() - 1]);
            assert((x + y)[p.len() - 1] == y[j]);
        }
    }
}

/// Whether no label in the tree holds an occurrence of `p`.
pub open spec fn labels_lack(node: NodeConfig, p: Seq<char>) -> bool
    decreases node,
{
    occurrences(node.label@, p) == 0 && all_labels_lack(node.children@, p)
}

/// Whether no label in any of the trees holds an occurrence of `p`.
pub open spec fn all_labels_lack(s: Seq<NodeConfig>, p: Seq<char>) -> bool
    decreases s,
{
    if s.len() == 0 {
        true
    } else {
        all_labels_lack(s.subrange(0, s.len() - 1), p) && labels_lack(s[s.len() - 1], p)
    }
}

/// Each tree of a sequence whose labels lack `p` has labels that lack it.
pub proof fn lemma_all_labels_lack(s: Seq<NodeConfig>, p: Seq<char>, j: int)
    requires
        all_labels_lack(s, p),
        0 <= j < s.len(),
    ensures
        labels_lack(s[j], p),
    decreases s.len(),
{
    if j < s.len() - 1 {
        let t = s.subrange(0, s.len() - 1);
        assert(t[j] == s[j]);
        lemma_all_labels_lack(t, p, j);
    }
}

/// A part long enough to hold every short end of the whole and without a
/// partial occurrence leaves the whole without one.
pub proof fn lemma_no_partial_tail(x: Seq<char>, y: Seq<char>, p: Seq<char>)
    requires
        no_partial(y, p),
        y.len() + 1 >= p.len(),
    ensures
        no_partial(x + y, p),
{
    let s = x + y;
    assert forall|i: int| 0 <= i < s.len() && s.len() - i < p.len() implies #[trigger] s.skip(i)
        != p.take(s.len() - i) by {
        assert(s.skip(i) =~= y.skip(i - x.len()));
    }
}

/// A text whose only occurrence of the last character of `p` is at `k`,
/// where `p` does not end, holds no occurrence of `p`.
pub proof fn lemma_single_last(y: Seq<char>, p: Seq<char>, k: int)
    requires
        p.len() > 0,
        p.len() - 1 <= k < y.len(),
        free_of(y.take(k), p[p.len() - 1]),
        free_of(y.skip(k + 1), p[p.len() - 1]),
        y.subrange(k + 1 - p.len(), k + 1) != p,
    ensures
        occurrences(y, p) == 0,
{
    reveal(free_of);
    let w = y.take(k + 1);
    let u = y.take(k + 1 - p.len());
    let v = y.subrange(k + 1 - p.len(), k + 1);
    assert(y =~= w + y.skip(k + 1));
    lemma_append_lacking_last(w, y.skip(k + 1), p);
    assert(w =~= u + v);
    assert(v.take(p.len() - 1) =~= y.subrange(k + 1 - p.len(), k));
    assert(free_of(v.take(p.len() - 1), p[p.len() - 1]));
    lemma_append_by_last(u, v, p);
    assert(free_of(u, p[p.len() - 1]));
    lemma_lacks_no_occurrence(u, p, p.len() - 1);
    lemma_short_no_occurrence(v.drop_first(), p);
    assert(v.take(p.len() as int) =~= v);
}

/// A text that begins with the first `m` characters of `p` but differs at
/// the next, and has the first character of `p` nowhere else, holds no
/// occurrence of `p` and no partial one.
pub proof fn lemma_false_start_at(y: Seq<char>, p: Seq<char>, m: int)
    requires
        1 <= m < p.len(),
        m < y.len(),
        y.take(m) == p.take(m),
        y[m] != p[m],
        free_of(y.drop_first(), p[0]),
    ensures
        occurrences(y, p) == 0,
        no_partial(y, p),
{
    lemma_free_inert(y.drop_first(), p);
    if starts_with(y, p) {
        assert(y.take(p.len() as int)[m] == y[m]);
    }
    assert forall|i: int| 0 <= i < y.len() && y.len() - i < p.len() implies #[trigger] y.skip(i)
        != p.take(y.len() - i) by {
        if i == 0 {
            assert(y.skip(0)[m] == y[m]);
        } else {
            assert(y.skip(i) =~= y.drop_first().skip(i - 1));
        }
    }
}

/// A text in which the first character of `p` is always followed by a
/// character other than the second one holds no occurrence of `p` and no
/// partial one.
pub proof fn lemma_bigram_breaks(y: Seq<char>, p: Seq<char>)
    requires
        p.len() >= 2,
        forall|i: int| 0 <= i < y.len() && #[trigger] y[i] == p[0] ==> i + 1 < y.len() && y[i + 1] != p[1],
    ensures
        occurrences(y, p) == 0,
        no_partial(y, p),
    decreases y.len(),
{
    assert forall|i: int| 0 <= i < y.len() && y.len() - i < p.len() implies #[trigger] y.skip(i)
        != p.take(y.len() - i) by {
        if y.skip(i) == p.take(y.len() - i) {
            assert(y.skip(i)[0] == y[i]);
            assert(y.skip(i)[1] == y[i + 1]);
        }
    }
    if y.len() > 0 {
        if starts_with(y, p) {
            assert(y.take(p.len() as int)[0] == y[0]);
            assert(y.take(p.len() as int)[1] == y[1]);
        }
        let t = y.drop_first();
        assert forall|i: int| 0 <= i < t.len() && #[trigger] t[i] == p[0] implies i + 1 < t.len() && t[i + 1]
            != p[1] by {
            assert(t[i] == y[i + 1]);
        }
        lemma_bigram_breaks(t, p);
    }
}

/// A text in which the first character of `p` is always followed, within
/// two characters, by one that breaks the match holds no occurrence of `p`
/// and no partial one.
pub proof fn lemma_trigram_breaks(y: Seq<char>, p: Seq<char>)
    requires
        p.len() >= 3,
        forall|i: int|
            0 <= i < y.len() && #[trigger] y[i] == p[0] ==> i + 1 < y.len() && (y[i + 1] != p[1]
                || (i + 2 < y.len() && y[i + 2] != p[2])),
    ensures
        occurrences(y, p) == 0,
        no_partial(y, p),
    decreases y.len(),
{
    assert forall|i: int| 0 <= i < y.len() && y.len() - i < p.len() implies #[trigger] y.skip(i)
        != p.take(y.len() - i) by {
        if y.skip(i) == p.take(y.len() - i) {
            assert(y.skip(i)[0] == y[i]);
            assert(y.skip(i)[1] == y[i + 1]);
            if i + 2 < y.len() {
                assert(y.skip(i)[2] == y[i + 2]);
            }
        }
    }
    if y.len() > 0 {
        if starts_with(y, p) {
            assert(y.take(p.len() as int)[0] == y[0]);
            assert(y.take(p.len() as int)[1] == y[1]);
            assert(y.take(p.len() as int)[2] == y[2]);
        }
        let t = y.drop_first();
        assert forall|i: int| 0 <= i < t.len() && #[trigger] t[i] == p[0] implies i + 1 < t.len() && (
        t[i + 1] != p[1] || (i + 2 < t.len() && t[i + 2] != p[2])) by {
            assert(t[i] == y[i + 1]);
        }
        lemma_trigram_breaks(t, p);
    }
}

} // verus!
