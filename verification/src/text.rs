//! Text helpers: Unicode whitespace, trimming and the ordering of strings.
use vstd::prelude::*;
use vstd::string::*;

verus! {

/// The characters with the Unicode `White_Space` property, the set that
/// `char::is_whitespace` and `str::trim` use.
pub open spec fn is_white_space(c: char) -> bool {
    ||| ('\u{9}' <= c && c <= '\u{d}')
    ||| c == ' '
    ||| c == '\u{85}'
    ||| c == '\u{a0}'
    ||| c == '\u{1680}'
    ||| ('\u{2000}' <= c && c <= '\u{200a}')
    ||| c == '\u{2028}'
    ||| c == '\u{2029}'
    ||| c == '\u{202f}'
    ||| c == '\u{205f}'
    ||| c == '\u{3000}'
}

/// Whether `c` is Unicode whitespace.
pub fn is_whitespace(c: char) -> (r: bool)
    ensures
        r == is_white_space(c),
{
    ('\u{9}' <= c && c <= '\u{d}') || c == ' ' || c == '\u{85}' || c == '\u{a0}' || c == '\u{1680}'
        || ('\u{2000}' <= c && c <= '\u{200a}') || c == '\u{2028}' || c == '\u{2029}'
        || c == '\u{202f}' || c == '\u{205f}' || c == '\u{3000}'
}


/// `s` without its leading whitespace.
pub open spec fn trim_start(s: Seq<char>) -> Seq<char>
    decreases s.len(),
{
    if s.len() > 0 && is_white_space(s[0]) {
        trim_start(s.drop_first())
    } else {
        s
    }
}

/// `s` without its trailing whitespace.
pub open spec fn trim_end(s: Seq<char>) -> Seq<char>
    decreases s.len(),
{
    if s.len() > 0 && is_white_space(s.last()) {
        trim_end(s.drop_last())
    } else {
        s
    }
}

/// `s` without leading and trailing whitespace, as `str::trim` gives it.
pub open spec fn trimmed(s: Seq<char>) -> Seq<char> {
    trim_end(trim_start(s))
}

/// Whether `s` holds nothing but whitespace.
pub open spec fn all_white_space(s: Seq<char>) -> bool {
    forall|i: int| 0 <= i < s.len() ==> is_white_space(#[trigger] s[i])
}

/// A string with only whitespace trims to nothing, and one that trims to
/// nothing has only whitespace.
pub proof fn lemma_trimmed_empty(s: Seq<char>)
    ensures
        (trimmed(s).len() == 0) == all_white_space(s),
        (trim_start(s).len() == 0) == all_white_space(s),
    decreases s.len(),
{
    if s.len() > 0 {
        lemma_trimmed_empty(s.drop_first());
        if is_white_space(s[0]) {
            assert forall|i: int| 0 <= i < s.len() && all_white_space(s.drop_first())
                implies is_white_space(#[trigger] s[i]) by {
                if i > 0 {
                    assert(s[i] == s.drop_first()[i - 1]);
                }
            }
            assert(all_white_space(s) ==> all_white_space(s.drop_first())) by {
                if all_white_space(s) {
                    assert forall|i: int| 0 <= i < s.drop_first().len()
                        implies is_white_space(#[trigger] s.drop_first()[i]) by {
                        assert(s.drop_first()[i] == s[i + 1]);
                    }
                }
            }
        } else {
            assert(!all_white_space(s)) by {
                assert(!is_white_space(s[0]));
            }
            assert(trim_end(s).len() > 0) by {
                lemma_trim_end_keeps_non_white(s);
            }
        }
    }
}

/// Trimming the end keeps a first character that is not whitespace.
proof fn lemma_trim_end_keeps_non_white(s: Seq<char>)
    requires
        s.len() > 0,
        !is_white_space(s[0]),
    ensures
        trim_end(s).len() > 0,
        trim_end(s)[0] == s[0],
    decreases s.len(),
{
    if is_white_space(s.last()) {
        assert(s.len() > 1);
        assert(s.drop_last()[0] == s[0]);
        lemma_trim_end_keeps_non_white(s.drop_last());
    }
}

/// `s` with leading and trailing whitespace removed (`str::trim`).
pub fn trim(s: &str) -> (r: String)
    ensures
        r@ == trimmed(s@),
{
    let n = s.unicode_len();
    let mut i: usize = 0;
    assert(s@.subrange(0, n as int) =~= s@);
    while i < n && is_whitespace(s.get_char(i))
        invariant
            n == s@.len(),
            i <= n,
            trim_start(s@) == trim_start(s@.subrange(i as int, n as int)),
        decreases n - i,
    {
        assert(s@.subrange(i as int, n as int).drop_first() =~= s@.subrange(i + 1, n as int));
        i = i + 1;
    }
    assert(trim_start(s@) == s@.subrange(i as int, n as int));
    let mut j: usize = n;
    while j > i && is_whitespace(s.get_char(j - 1))
        invariant
            n == s@.len(),
            i <= j <= n,
            trim_end(s@.subrange(i as int, n as int)) == trim_end(s@.subrange(i as int, j as int)),
        decreases j,
    {
        assert(s@.subrange(i as int, j as int).drop_last() =~= s@.subrange(i as int, j - 1));
        j = j - 1;
    }
    let inner = s.substring_char(i, j);
    String::from_str(inner)
}

/// Whether `s` is empty or holds only whitespace, that is, whether it trims
/// to nothing.
pub fn is_blank(s: &str) -> (r: bool)
    ensures
        r == (trimmed(s@).len() == 0),
        r == all_white_space(s@),
{
    let n = s.unicode_len();
    let mut i: usize = 0;
    while i < n
        invariant
            n == s@.len(),
            i <= n,
            forall|k: int| 0 <= k < i ==> is_white_space(#[trigger] s@[k]),
        decreases n - i,
    {
        let c = s.get_char(i);
        if !is_whitespace(c) {
            assert(!is_white_space(s@[i as int]));
            proof {
                lemma_trimmed_empty(s@);
            }
            return false;
        }
        i = i + 1;
    }
    proof {
        lemma_trimmed_empty(s@);
    }
    true
}

/// Lexicographic order on character sequences: `a` comes strictly before
/// `b`. On strings this is the order of `str`'s `Ord`, since UTF-8 keeps
/// the order of code points.
pub open spec fn seq_precedes(a: Seq<char>, b: Seq<char>) -> bool
    decreases a.len(),
{
    if a.len() == 0 {
        b.len() > 0
    } else if b.len() == 0 {
        false
    } else if a[0] != b[0] {
        a[0] < b[0]
    } else {
        seq_precedes(a.drop_first(), b.drop_first())
    }
}

/// The lexicographic order is a strict total order.
pub proof fn lemma_precedes_total(a: Seq<char>, b: Seq<char>)
    ensures
        !seq_precedes(a, a),
        seq_precedes(a, b) ==> !seq_precedes(b, a),
        a != b ==> seq_precedes(a, b) || seq_precedes(b, a),
    decreases a.len(),
{
    if a.len() > 0 && b.len() > 0 {
        lemma_precedes_total(a.drop_first(), b.drop_first());
        lemma_precedes_total(a.drop_first(), a.drop_first());
        if a[0] == b[0] && a != b {
            assert(a.drop_first() != b.drop_first()) by {
                if a.drop_first() =~= b.drop_first() {
                    assert(a =~= b) by {
                        assert forall|i: int| 0 <= i < a.len() implies a[i] == b[i] by {
                            if i > 0 {
                                assert(a[i] == a.drop_first()[i - 1]);
                                assert(b[i] == b.drop_first()[i - 1]);
                            }
                        }
                    }
                }
            }
        }
    } else if a.len() == 0 && b.len() == 0 {
        assert(a =~= b);
    } else if a.len() > 0 {
        lemma_precedes_total(a.drop_first(), a.drop_first());
    }
}

/// The lexicographic order is transitive.
pub proof fn lemma_precedes_transitive(a: Seq<char>, b: Seq<char>, c: Seq<char>)
    requires
        seq_precedes(a, b),
        seq_precedes(b, c),
    ensures
        seq_precedes(a, c),
    decreases a.len(),
{
    if a.len() > 0 && b.len() > 0 && c.len() > 0 {
        if a[0] == b[0] && b[0] == c[0] {
            lemma_precedes_transitive(a.drop_first(), b.drop_first(), c.drop_first());
        }
    }
}

/// Whether `a` comes strictly before `b` in lexicographic order.
pub fn precedes(a: &str, b: &str) -> (r: bool)
    ensures
        r == seq_precedes(a@, b@),
{
    let n = a.unicode_len();
    let m = b.unicode_len();
    let mut i: usize = 0;
    assert(a@.subrange(0, n as int) =~= a@);
    assert(b@.subrange(0, m as int) =~= b@);
    assert(a@.subrange(0, 0) =~= b@.subrange(0, 0));
    while i < n && i < m
        invariant
            n == a@.len(),
            m == b@.len(),
            i <= n,
            i <= m,
            a@.subrange(0, i as int) == b@.subrange(0, i as int),
            seq_precedes(a@, b@) == seq_precedes(
                a@.subrange(i as int, n as int),
                b@.subrange(i as int, m as int),
            ),
        decreases n - i,
    {
        let x = a.get_char(i);
        let y = b.get_char(i);
        if x != y {
            return x < y;
        }
        assert(a@.subrange(i as int, n as int).drop_first() =~= a@.subrange(i + 1, n as int));
        assert(b@.subrange(i as int, m as int).drop_first() =~= b@.subrange(i + 1, m as int));
        assert(a@.subrange(0, i + 1) =~= a@.subrange(0, i as int).push(x));
        assert(b@.subrange(0, i + 1) =~= b@.subrange(0, i as int).push(y));
        i = i + 1;
    }
    i == n && i < m
}

/// What `trim_start` leaves does not start with whitespace.
proof fn lemma_trim_start_head(s: Seq<char>)
    ensures
        trim_start(s).len() > 0 ==> !is_white_space(trim_start(s)[0]),
        trim_start(s).len() <= s.len(),
    decreases s.len(),
{
    if s.len() > 0 && is_white_space(s[0]) {
        lemma_trim_start_head(s.drop_first());
    }
}

/// What `trim_end` leaves does not end with whitespace.
proof fn lemma_trim_end_tail(s: Seq<char>)
    ensures
        trim_end(s).len() > 0 ==> !is_white_space(trim_end(s).last()),
    decreases s.len(),
{
    if s.len() > 0 && is_white_space(s.last()) {
        lemma_trim_end_tail(s.drop_last());
    }
}

/// Trimming twice is trimming once.
pub proof fn lemma_trim_idempotent(s: Seq<char>)
    ensures
        trimmed(trimmed(s)) == trimmed(s),
{
    let t = trimmed(s);
    lemma_trim_start_head(s);
    lemma_trim_end_tail(trim_start(s));
    if t.len() > 0 {
        lemma_trim_end_keeps_non_white(trim_start(s));
        assert(trim_start(t) == t);
        assert(trim_end(t) == t);
    } else {
        assert(trim_start(t) == t);
        assert(trim_end(t) == t);
    }
}

} // verus!
