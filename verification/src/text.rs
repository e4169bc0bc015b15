//! Character-sequence helpers shared by the modules: equality, prefix and
//! search on strings, whitespace trimming, decimal formatting.
use vstd::prelude::*;

verus! {

/// Whether two strings hold the same characters.
pub fn str_eq(a: &str, b: &str) -> (r: bool)
    ensures
        r == (a@ == b@),
{
    let x = String::from_str(a);
    let y = String::from_str(b);
    x == y
}

/// Whether `s` starts with `prefix`.
pub fn starts_with(s: &str, prefix: &str) -> (r: bool)
    ensures
        r == (prefix@.len() <= s@.len() && s@.take(prefix@.len() as int) == prefix@),
{
    let n = s.unicode_len();
    let m = prefix.unicode_len();
    if m > n {
        return false;
    }
    let head = s.substring_char(0, m);
    assert(head@ =~= s@.take(m as int));
    str_eq(head, prefix)
}

/// Index of the first occurrence of `needle` in `s`, if any.
pub open spec fn find_spec(s: Seq<char>, needle: Seq<char>) -> Option<int> {
    if exists|i: int|
        0 <= i && i + needle.len() <= s.len() && #[trigger] s.subrange(i, i + needle.len())
            == needle {
        Some(
            choose|i: int|
                0 <= i && i + needle.len() <= s.len() && #[trigger] s.subrange(
                    i,
                    i + needle.len(),
                ) == needle && (forall|j: int|
                    0 <= j < i && j + needle.len() <= s.len() ==> #[trigger] s.subrange(
                        j,
                        j + needle.len(),
                    ) != needle),
        )
    } else {
        None
    }
}

/// The first occurrence is unique: an index that matches, with no earlier
/// match, is the one `find_spec` gives.
proof fn lemma_find_first(s: Seq<char>, needle: Seq<char>, i: int)
    requires
        0 <= i && i + needle.len() <= s.len(),
        s.subrange(i, i + needle.len()) == needle,
        forall|j: int|
            0 <= j < i && j + needle.len() <= s.len() ==> #[trigger] s.subrange(
                j,
                j + needle.len(),
            ) != needle,
    ensures
        find_spec(s, needle) == Some(i),
{
    let k = choose|k: int|
        0 <= k && k + needle.len() <= s.len() && #[trigger] s.subrange(k, k + needle.len())
            == needle && (forall|j: int|
            0 <= j < k && j + needle.len() <= s.len() ==> #[trigger] s.subrange(
                j,
                j + needle.len(),
            ) != needle);
    assert(s.subrange(i, i + needle.len()) == needle);
    if k < i {
        assert(s.subrange(k, k + needle.len()) != needle);
    }
    if k > i {
        assert(s.subrange(i, i + needle.len()) != needle);
    }
}

/// Finds the first occurrence of `needle` in `s`; the index counts characters.
pub fn find(s: &str, needle: &str) -> (r: Option<usize>)
    ensures
        match r {
            Some(i) => find_spec(s@, needle@) == Some(i as int) && i + needle@.len() <= s@.len(),
            None => find_spec(s@, needle@) is None,
        },
{
    let n = s.unicode_len();
    let m = needle.unicode_len();
    if m > n {
        return None;
    }
    let mut i: usize = 0;
    while i <= n - m
        invariant
            n == s@.len(),
            m == needle@.len(),
            m <= n,
            i <= n - m + 1,
            forall|j: int|
                0 <= j < i && j + m <= n ==> #[trigger] s@.subrange(j, j + m) != needle@,
        decreases n - m + 1 - i,
    {
        let part = s.substring_char(i, i + m);
        let hit = str_eq(part, needle);
        assert(hit == (s@.subrange(i as int, i + m) == needle@));
        if hit {
            proof {
                lemma_find_first(s@, needle@, i as int);
            }
            return Some(i);
        }
        if i == n - m {
            return None;
        }
        i = i + 1;
    }
    None
}

/// Unicode White_Space, the characters that `str::trim` removes.
pub open spec fn is_white(c: char) -> bool {
    ||| '\u{9}' <= c <= '\u{d}'
    ||| c == ' '
    ||| c == '\u{85}'
    ||| c == '\u{a0}'
    ||| c == '\u{1680}'
    ||| '\u{2000}' <= c <= '\u{200a}'
    ||| c == '\u{2028}'
    ||| c == '\u{2029}'
    ||| c == '\u{202f}'
    ||| c == '\u{205f}'
    ||| c == '\u{3000}'
}

fn white(c: char) -> (r: bool)
    ensures
        r == is_white(c),
{
    ('\u{9}' <= c && c <= '\u{d}') || c == ' ' || c == '\u{85}' || c == '\u{a0}' || c
        == '\u{1680}' || ('\u{2000}' <= c && c <= '\u{200a}') || c == '\u{2028}' || c
        == '\u{2029}' || c == '\u{202f}' || c == '\u{205f}' || c == '\u{3000}'
}

/// `s` without leading and trailing white space, given by the bounds of what
/// stays: `lo` is the first kept character, `hi` one past the last.
pub open spec fn trim_bounds(s: Seq<char>, lo: int, hi: int) -> bool {
    &&& 0 <= lo <= hi <= s.len()
    &&& forall|k: int| 0 <= k < lo ==> is_white(#[trigger] s[k])
    &&& forall|k: int| hi <= k < s.len() ==> is_white(#[trigger] s[k])
    &&& lo < hi ==> !is_white(s[lo]) && !is_white(s[hi - 1])
}

/// `s` with leading and trailing white space removed.
pub open spec fn trim_spec(s: Seq<char>) -> Seq<char> {
    let (lo, hi) = choose|lo: int, hi: int| trim_bounds(s, lo, hi);
    s.subrange(lo, hi)
}

proof fn lemma_trim_unique(s: Seq<char>, lo: int, hi: int)
    requires
        trim_bounds(s, lo, hi),
    ensures
        trim_spec(s) == s.subrange(lo, hi),
{
    let (a, b) = choose|a: int, b: int| trim_bounds(s, a, b);
    assert(trim_bounds(s, a, b));
    if lo < hi {
        assert(!is_white(s[lo]));
        assert(a <= lo);
        assert(a == lo) by {
            if a < lo {
                assert(is_white(s[a]));
                if a < b {
                    assert(!is_white(s[a]));
                } else {
                    assert(is_white(s[lo]));
                }
            }
        }
        assert(b == hi) by {
            if b < hi {
                assert(is_white(s[hi - 1]));
            }
            if b > hi {
                assert(is_white(s[b - 1]));
            }
        }
    } else {
        if a < b {
            assert(!is_white(s[a]));
            if a < lo {
                assert(is_white(s[a]));
            } else {
                assert(is_white(s[a]));
            }
        }
    }
    assert(s.subrange(lo, hi) =~= s.subrange(a, b));
}

/// Removes leading and trailing white space (as `str::trim` does).
pub fn trim(s: &str) -> (r: &str)
    ensures
        r@ == trim_spec(s@),
{
    let n = s.unicode_len();
    let mut lo: usize = 0;
    while lo < n && white(s.get_char(lo))
        invariant
            n == s@.len(),
            lo <= n,
            forall|k: int| 0 <= k < lo ==> is_white(#[trigger] s@[k]),
        decreases n - lo,
    {
        lo = lo + 1;
    }
    let mut hi: usize = n;
    while hi > lo && white(s.get_char(hi - 1))
        invariant
            n == s@.len(),
            lo <= hi <= n,
            forall|k: int| hi <= k < n ==> is_white(#[trigger] s@[k]),
        decreases hi,
    {
        hi = hi - 1;
    }
    proof {
        if lo < hi {
            assert(!is_white(s@[lo as int]));
        }
        lemma_trim_unique(s@, lo as int, hi as int);
    }
    let r = s.substring_char(lo, hi);
    r
}

/// Decimal digits of `n`, most significant first, without leading zeros
/// ("0" for zero).
pub open spec fn decimal_spec(n: nat) -> Seq<char>
    decreases n,
{
    if n < 10 {
        seq![digit_char(n)]
    } else {
        decimal_spec(n / 10) + seq![digit_char(n % 10)]
    }
}

/// The character for the decimal digit `d`.
pub open spec fn digit_char(d: nat) -> char {
    if d == 0 {
        '0'
    } else if d == 1 {
        '1'
    } else if d == 2 {
        '2'
    } else if d == 3 {
        '3'
    } else if d == 4 {
        '4'
    } else if d == 5 {
        '5'
    } else if d == 6 {
        '6'
    } else if d == 7 {
        '7'
    } else if d == 8 {
        '8'
    } else {
        '9'
    }
}

fn digit_str(d: u64) -> (r: &'static str)
    requires
        d < 10,
    ensures
        r@ == seq![digit_char(d as nat)],
{
    proof {
        reveal_strlit("0");
        reveal_strlit("1");
        reveal_strlit("2");
        reveal_strlit("3");
        reveal_strlit("4");
        reveal_strlit("5");
        reveal_strlit("6");
        reveal_strlit("7");
        reveal_strlit("8");
        reveal_strlit("9");
    }
    if d == 0 {
        "0"
    } else if d == 1 {
        "1"
    } else if d == 2 {
        "2"
    } else if d == 3 {
        "3"
    } else if d == 4 {
        "4"
    } else if d == 5 {
        "5"
    } else if d == 6 {
        "6"
    } else if d == 7 {
        "7"
    } else if d == 8 {
        "8"
    } else {
        "9"
    }
}

/// Writes `n` in decimal.
pub fn decimal(n: u64) -> (r: String)
    ensures
        r@ == decimal_spec(n as nat),
    decreases n,
{
    if n < 10 {
        String::from_str(digit_str(n))
    } else {
        let mut r = decimal(n / 10);
        r.append(digit_str(n % 10));
        r
    }
}


/// `parts` separated by `sep`.
pub open spec fn join_with(parts: Seq<Seq<char>>, sep: Seq<char>) -> Seq<char>
    decreases parts.len(),
{
    if parts.len() == 0 {
        Seq::empty()
    } else if parts.len() == 1 {
        parts[0]
    } else {
        join_with(parts.drop_last(), sep) + sep + parts.last()
    }
}

/// Joins `parts` with `sep` between neighbours.
pub fn join(parts: &Vec<String>, sep: &str) -> (out: String)
    ensures
        out@ == join_with(parts@.map_values(|s: String| s@), sep@),
{
    let ghost views = parts@.map_values(|s: String| s@);
    let mut out = String::new();
    let n = parts.len();
    let mut i: usize = 0;
    while i < n
        invariant
            n == parts@.len(),
            i <= n,
            views == parts@.map_values(|s: String| s@),
            out@ == join_with(views.take(i as int), sep@),
        decreases n - i,
    {
        assert(views.take(i + 1).drop_last() =~= views.take(i as int));
        if i > 0 {
            out.append(sep);
        } else {
            assert(views.take(0) =~= Seq::<Seq<char>>::empty());
            assert(out@ =~= Seq::<char>::empty());
        }
        out.append(parts[i].as_str());
        assert(views.take(i + 1).last() == parts@[i as int]@);
        proof {
            if i == 0 {
                assert(out@ =~= views.take(1)[0]);
            }
        }
        i = i + 1;
    }
    assert(views.take(n as int) =~= views);
    out
}

} // verus!
