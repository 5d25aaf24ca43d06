//! Small string predicates over `char` sequences.

use vstd::prelude::*;
use vstd::string::*;

verus! {

/// The code point of `c` after ASCII lower-casing (only `A`..=`Z` change).
pub open spec fn ascii_lower_code(c: char) -> int {
    if 65 <= (c as int) <= 90 {
        (c as int) + 32
    } else {
        c as int
    }
}

/// Two characters are equal up to ASCII case.
pub open spec fn chars_eq_ignore_ascii_case(a: char, b: char) -> bool {
    ascii_lower_code(a) == ascii_lower_code(b)
}

/// `a` and `b` are an ASCII case-insensitive match.
pub open spec fn seq_eq_ignore_ascii_case(a: Seq<char>, b: Seq<char>) -> bool {
    &&& a.len() == b.len()
    &&& forall|i: int| 0 <= i < a.len() ==> #[trigger] chars_eq_ignore_ascii_case(a[i], b[i])
}

/// `s` starts with `prefix` up to ASCII case.
pub open spec fn seq_starts_with_ignore_ascii_case(s: Seq<char>, prefix: Seq<char>) -> bool {
    &&& prefix.len() <= s.len()
    &&& seq_eq_ignore_ascii_case(s.subrange(0, prefix.len() as int), prefix)
}

fn lower_code(c: char) -> (r: u32)
    ensures
        r as int == ascii_lower_code(c),
{
    let x = c as u32;
    if 65 <= x && x <= 90 {
        x + 32
    } else {
        x
    }
}

/// Character-wise equality of two strings.
pub fn str_eq(a: &str, b: &str) -> (r: bool)
    ensures
        r == (a@ == b@),
{
    let n = a.unicode_len();
    let m = b.unicode_len();
    if n != m {
        return false;
    }
    let mut i: usize = 0;
    while i < n
        invariant
            n == a@.len(),
            m == b@.len(),
            n == m,
            i <= n,
            forall|j: int| 0 <= j < i ==> a@[j] == b@[j],
        decreases n - i,
    {
        if a.get_char(i) != b.get_char(i) {
            return false;
        }
        i = i + 1;
    }
    assert(a@ =~= b@);
    true
}

/// ASCII case-insensitive equality, as `str::eq_ignore_ascii_case`.
pub fn eq_ignore_ascii_case(a: &str, b: &str) -> (r: bool)
    ensures
        r == seq_eq_ignore_ascii_case(a@, b@),
{
    let n = a.unicode_len();
    let m = b.unicode_len();
    if n != m {
        return false;
    }
    let mut i: usize = 0;
    while i < n
        invariant
            n == a@.len(),
            m == b@.len(),
            n == m,
            i <= n,
            forall|j: int| 0 <= j < i ==> #[trigger] chars_eq_ignore_ascii_case(a@[j], b@[j]),
        decreases n - i,
    {
        if lower_code(a.get_char(i)) != lower_code(b.get_char(i)) {
            assert(!chars_eq_ignore_ascii_case(a@[i as int], b@[i as int]));
            return false;
        }
        i = i + 1;
    }
    true
}

/// Whether `s` begins with `prefix`, comparing ASCII letters without case.
pub fn starts_with_ignore_ascii_case(s: &str, prefix: &str) -> (r: bool)
    ensures
        r == seq_starts_with_ignore_ascii_case(s@, prefix@),
{
    let n = s.unicode_len();
    let m = prefix.unicode_len();
    if m > n {
        return false;
    }
    let mut i: usize = 0;
    while i < m
        invariant
            n == s@.len(),
            m == prefix@.len(),
            m <= n,
            i <= m,
            forall|j: int| 0 <= j < i ==> #[trigger] chars_eq_ignore_ascii_case(s@[j], prefix@[j]),
        decreases m - i,
    {
        if lower_code(s.get_char(i)) != lower_code(prefix.get_char(i)) {
            assert(!chars_eq_ignore_ascii_case(s@.subrange(0, m as int)[i as int], prefix@[i as int]));
            return false;
        }
        i = i + 1;
    }
    assert forall|j: int| 0 <= j < m implies #[trigger] chars_eq_ignore_ascii_case(
        s@.subrange(0, m as int)[j],
        prefix@[j],
    ) by {
        assert(s@.subrange(0, m as int)[j] == s@[j]);
    }
    true
}

} // verus!

verus! {

/// `c` has the Unicode `White_Space` property, as `char::is_whitespace`
/// (and so `str::trim`) decides.
pub open spec fn is_white_space(c: char) -> bool {
    let x = c as int;
    ||| 0x09 <= x <= 0x0D
    ||| x == 0x20
    ||| x == 0x85
    ||| x == 0xA0
    ||| x == 0x1680
    ||| 0x2000 <= x <= 0x200A
    ||| x == 0x2028
    ||| x == 0x2029
    ||| x == 0x202F
    ||| x == 0x205F
    ||| x == 0x3000
}

/// `t` is `s` with its leading and trailing white space removed.
pub open spec fn is_trim_of(t: Seq<char>, s: Seq<char>) -> bool {
    exists|a: int, b: int|
        {
            &&& 0 <= a <= b <= s.len()
            &&& forall|i: int| 0 <= i < a ==> is_white_space(#[trigger] s[i])
            &&& forall|i: int| b <= i < s.len() ==> is_white_space(#[trigger] s[i])
            &&& a < b ==> !is_white_space(s[a]) && !is_white_space(s[b - 1])
            &&& t == s.subrange(a, b)
        }
}

/// The pieces joined back together, with `sep` between neighbours.
pub open spec fn join_with(pieces: Seq<Seq<char>>, sep: char) -> Seq<char>
    decreases pieces.len(),
{
    if pieces.len() == 0 {
        Seq::empty()
    } else if pieces.len() == 1 {
        pieces[0]
    } else {
        join_with(pieces.drop_last(), sep) + seq![sep] + pieces.last()
    }
}

/// `pieces` is what `str::split(sep)` yields for `s`: the maximal runs of
/// `s` without `sep`, in order, so that joining them with `sep` gives `s`.
pub open spec fn is_split_of(pieces: Seq<Seq<char>>, s: Seq<char>, sep: char) -> bool {
    &&& pieces.len() >= 1
    &&& join_with(pieces, sep) == s
    &&& forall|i: int| 0 <= i < pieces.len() ==> !(#[trigger] pieces[i]).contains(sep)
}

fn is_white_space_char(c: char) -> (r: bool)
    ensures
        r == is_white_space(c),
{
    let x = c as u32;
    (0x09 <= x && x <= 0x0D) || x == 0x20 || x == 0x85 || x == 0xA0 || x == 0x1680 || (0x2000 <= x
        && x <= 0x200A) || x == 0x2028 || x == 0x2029 || x == 0x202F || x == 0x205F || x == 0x3000
}

/// `s` without leading and trailing white space, as `str::trim`.
pub fn trim(s: &str) -> (r: String)
    ensures
        is_trim_of(r@, s@),
{
    let n = s.unicode_len();
    let mut a: usize = 0;
    while a < n && is_white_space_char(s.get_char(a))
        invariant
            n == s@.len(),
            a <= n,
            forall|i: int| 0 <= i < a ==> is_white_space(#[trigger] s@[i]),
        decreases n - a,
    {
        a = a + 1;
    }
    let mut b: usize = n;
    while b > a && is_white_space_char(s.get_char(b - 1))
        invariant
            n == s@.len(),
            a <= b <= n,
            forall|i: int| b <= i < n ==> is_white_space(#[trigger] s@[i]),
        decreases b - a,
    {
        b = b - 1;
    }
    let t = s.substring_char(a, b).to_owned();
    assert(a < b ==> !is_white_space(s@[a as int]) && !is_white_space(s@[b - 1]));
    t
}

proof fn lemma_join_push(pieces: Seq<Seq<char>>, x: Seq<char>, sep: char)
    ensures
        join_with(pieces.push(x), sep) == if pieces.len() == 0 {
            x
        } else {
            join_with(pieces, sep) + seq![sep] + x
        },
{
    assert(pieces.push(x).drop_last() =~= pieces);
}

/// The pieces of `s` between the separator `sep`, as `str::split(sep)`.
pub fn split_on(s: &str, sep: char) -> (r: Vec<String>)
    ensures
        is_split_of(r@.map_values(|p: String| p@), s@, sep),
{
    let n = s.unicode_len();
    let mut pieces: Vec<String> = Vec::new();
    let mut start: usize = 0;
    let mut i: usize = 0;
    while i < n
        invariant
            n == s@.len(),
            start <= i <= n,
            join_with(
                pieces@.map_values(|p: String| p@).push(s@.subrange(start as int, i as int)),
                sep,
            ) == s@.subrange(0, i as int),
            forall|k: int|
                0 <= k < pieces@.len() ==> !(#[trigger] pieces@[k])@.contains(sep),
            !s@.subrange(start as int, i as int).contains(sep),
        decreases n - i,
    {
        let ghost views = pieces@.map_values(|p: String| p@);
        let c = s.get_char(i);
        if c == sep {
            let piece = s.substring_char(start, i).to_owned();
            pieces.push(piece);
            proof {
                let new_views = pieces@.map_values(|p: String| p@);
                assert(new_views =~= views.push(s@.subrange(start as int, i as int)));
                lemma_join_push(new_views, Seq::empty(), sep);
                lemma_join_push(views, s@.subrange(start as int, i as int), sep);
                assert(s@.subrange(0, i + 1) =~= s@.subrange(0, i as int) + seq![sep]);
                assert(s@.subrange(i + 1, i + 1) =~= Seq::<char>::empty());
                assert(join_with(new_views, sep) + seq![sep] + Seq::<char>::empty() =~= join_with(
                    new_views,
                    sep,
                ) + seq![sep]);
            }
            start = i + 1;
        } else {
            proof {
                let x = s@.subrange(start as int, i as int);
                lemma_join_push(views, x, sep);
                lemma_join_push(views, x.push(c), sep);
                assert(s@.subrange(start as int, i + 1) =~= x.push(c));
                assert(s@.subrange(0, i + 1) =~= s@.subrange(0, i as int).push(c));
                if views.len() != 0 {
                    assert(join_with(views, sep) + seq![sep] + x.push(c) =~= (join_with(views, sep)
                        + seq![sep] + x).push(c));
                }
                assert forall|j: int| 0 <= j < x.push(c).len() implies x.push(c)[j] != sep by {
                    if j < x.len() {
                        assert(x[j] != sep);
                    }
                }
            }
        }
        i = i + 1;
    }
    let last = s.substring_char(start, n).to_owned();
    let ghost views = pieces@.map_values(|p: String| p@);
    pieces.push(last);
    proof {
        let final_views = pieces@.map_values(|p: String| p@);
        assert(final_views =~= views.push(s@.subrange(start as int, n as int)));
        assert(s@.subrange(0, n as int) =~= s@);
        assert forall|k: int| 0 <= k < final_views.len() implies !(#[trigger] final_views[k]).contains(
            sep,
        ) by {
            if k < views.len() {
                assert(final_views[k] == pieces@[k]@);
            }
        }
    }
    pieces
}

} // verus!
