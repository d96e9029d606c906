//! Verified helpers over strings and character sequences: substring
//! search, trimming, decimal formatting and joining.

use vstd::prelude::*;
use vstd::string::*;

verus! {

/// The characters this crate treats as blank when trimming and when
/// separating tokens of the downloader's progress lines.
pub open spec fn is_blank(c: char) -> bool {
    c == ' ' || c == '\t' || c == '\n' || c == '\r'
}

/// Executable twin of `is_blank`.
pub fn blank(c: char) -> (r: bool)
    ensures
        r == is_blank(c),
{
    c == ' ' || c == '\t' || c == '\n' || c == '\r'
}

/// `pat` occurs in `s` starting at index `i`.
pub open spec fn match_at(s: Seq<char>, pat: Seq<char>, i: int) -> bool {
    0 <= i && i + pat.len() <= s.len() && s.subrange(i, i + pat.len()) == pat
}

/// `pat` occurs somewhere in `s`.
pub open spec fn contains_seq(s: Seq<char>, pat: Seq<char>) -> bool {
    exists|i: int| match_at(s, pat, i)
}

/// The characters of `s`, as a vector.
pub fn chars_vec(s: &str) -> (r: Vec<char>)
    ensures
        r@ == s@,
{
    let n = s.unicode_len();
    let mut r: Vec<char> = Vec::new();
    let mut i: usize = 0;
    while i < n
        invariant
            i <= n,
            n == s@.len(),
            r@ == s@.subrange(0, i as int),
        decreases n - i,
    {
        let c = s.get_char(i);
        r.push(c);
        i = i + 1;
        proof {
            assert(r@ =~= s@.subrange(0, i as int));
        }
    }
    proof {
        assert(r@ =~= s@);
    }
    r
}

/// Whether `pat` occurs in `hay` at index `i`, by direct comparison.
pub fn occurs_at(hay: &Vec<char>, pat: &Vec<char>, i: usize) -> (r: bool)
    requires
        i + pat@.len() <= hay@.len(),
    ensures
        r == match_at(hay@, pat@, i as int),
{
    let m = pat.len();
    let n = hay.len();
    let mut j: usize = 0;
    while j < m
        invariant
            j <= m,
            m == pat@.len(),
            n == hay@.len(),
            i + m <= n,
            forall|k: int| 0 <= k < j ==> hay@[i + k] == pat@[k],
        decreases m - j,
    {
        if hay[i + j] != pat[j] {
            proof {
                assert(hay@.subrange(i as int, i + pat@.len())[j as int] != pat@[j as int]);
            }
            return false;
        }
        j = j + 1;
    }
    proof {
        assert(hay@.subrange(i as int, i + pat@.len()) =~= pat@);
    }
    true
}

/// Index of the first occurrence of `pat` in `hay`, if any.
pub fn find_first(hay: &Vec<char>, pat: &Vec<char>) -> (r: Option<usize>)
    ensures
        match r {
            Some(i) => match_at(hay@, pat@, i as int) && forall|j: int|
                0 <= j < i ==> !match_at(hay@, pat@, j),
            None => !contains_seq(hay@, pat@),
        },
{
    let n = hay.len();
    let m = pat.len();
    if m > n {
        proof {
            assert(forall|i: int| !match_at(hay@, pat@, i));
        }
        return None;
    }
    if m == 0 {
        proof {
            assert(hay@.subrange(0, 0) =~= pat@);
        }
        return Some(0);
    }
    let mut i: usize = 0;
    while i <= n - m
        invariant
            1 <= m <= n,
            n == hay@.len(),
            m == pat@.len(),
            i <= n - m + 1,
            forall|j: int| 0 <= j < i ==> !match_at(hay@, pat@, j),
        decreases n - m + 1 - i,
    {
        if occurs_at(hay, pat, i) {
            return Some(i);
        }
        i = i + 1;
    }
    proof {
        assert(forall|j: int| j > n - m ==> !match_at(hay@, pat@, j));
    }
    None
}

/// `s` begins with `pat`.
pub open spec fn starts_with_seq(s: Seq<char>, pat: Seq<char>) -> bool {
    match_at(s, pat, 0)
}

/// Whether `hay` begins with `pat`.
pub fn starts_with(hay: &Vec<char>, pat: &Vec<char>) -> (r: bool)
    ensures
        r == starts_with_seq(hay@, pat@),
{
    if pat.len() > hay.len() {
        return false;
    }
    occurs_at(hay, pat, 0)
}

/// The view of an optional string.
pub open spec fn view_opt(o: Option<String>) -> Option<Seq<char>> {
    match o {
        Some(x) => Some(x@),
        None => None,
    }
}

/// Whether `pat` occurs in `hay` at `i`, with no bound asked of `i`.
pub fn match_here(hay: &Vec<char>, pat: &Vec<char>, i: usize) -> (r: bool)
    requires
        i <= hay@.len(),
    ensures
        r == match_at(hay@, pat@, i as int),
{
    if pat.len() > hay.len() - i {
        false
    } else {
        occurs_at(hay, pat, i)
    }
}

/// `s` with its leading blanks removed.
pub open spec fn spec_trim_start(s: Seq<char>) -> Seq<char>
    decreases s.len(),
{
    if s.len() > 0 && is_blank(s[0]) {
        spec_trim_start(s.drop_first())
    } else {
        s
    }
}

/// `s` with its trailing blanks removed.
pub open spec fn spec_trim_end(s: Seq<char>) -> Seq<char>
    decreases s.len(),
{
    if s.len() > 0 && is_blank(s[s.len() - 1]) {
        spec_trim_end(s.drop_last())
    } else {
        s
    }
}

/// `s` with leading and trailing blanks removed.
pub open spec fn spec_trim(s: Seq<char>) -> Seq<char> {
    spec_trim_end(spec_trim_start(s))
}

proof fn lemma_trim_start_at(s: Seq<char>, i: int)
    requires
        0 <= i <= s.len(),
        forall|k: int| 0 <= k < i ==> is_blank(s[k]),
        i < s.len() ==> !is_blank(s[i]),
    ensures
        spec_trim_start(s) == s.subrange(i, s.len() as int),
    decreases i,
{
    if i == 0 {
        assert(s.subrange(0, s.len() as int) =~= s);
    } else {
        assert(is_blank(s[0]));
        lemma_trim_start_at(s.drop_first(), i - 1);
        assert(s.drop_first().subrange(i - 1, s.drop_first().len() as int) =~= s.subrange(
            i,
            s.len() as int,
        ));
    }
}

proof fn lemma_trim_end_at(s: Seq<char>, b: int)
    requires
        0 <= b <= s.len(),
        forall|k: int| b <= k < s.len() ==> is_blank(s[k]),
        b > 0 ==> !is_blank(s[b - 1]),
    ensures
        spec_trim_end(s) == s.subrange(0, b),
    decreases s.len() - b,
{
    if b == s.len() {
        assert(s.subrange(0, s.len() as int) =~= s);
    } else {
        assert(is_blank(s[s.len() - 1]));
        lemma_trim_end_at(s.drop_last(), b);
        assert(s.drop_last().subrange(0, b) =~= s.subrange(0, b));
    }
}

/// A copy of `s` with leading and trailing blanks removed.
pub fn trim_str(s: &str) -> (r: String)
    ensures
        r@ == spec_trim(s@),
{
    let n = s.unicode_len();
    let mut a: usize = 0;
    while a < n && blank(s.get_char(a))
        invariant
            a <= n,
            n == s@.len(),
            forall|k: int| 0 <= k < a ==> is_blank(s@[k]),
        decreases n - a,
    {
        a = a + 1;
    }
    let mut b: usize = n;
    while b > a && blank(s.get_char(b - 1))
        invariant
            a <= b <= n,
            n == s@.len(),
            forall|k: int| 0 <= k < a ==> is_blank(s@[k]),
            forall|k: int| b <= k < n ==> is_blank(s@[k]),
        decreases b,
    {
        b = b - 1;
    }
    proof {
        lemma_trim_start_at(s@, a as int);
        let t = s@.subrange(a as int, n as int);
        if b == a {
            lemma_trim_end_at(t, 0);
        } else {
            lemma_trim_end_at(t, b - a);
        }
        assert(t.subrange(0, b - a) =~= s@.subrange(a as int, b as int));
    }
    let piece = s.substring_char(a, b);
    piece.to_owned()
}

/// The decimal digit character for `d`.
pub open spec fn spec_digit(d: int) -> char {
    if d == 0 {
        '0'
    } else if d == 1 {
        '1'
    } else if d == 2 {
        '2'
    } else if d == 3 {
        '3'
    } else if d == 4 {
        '4'
    } else if d == 5 {
        '5'
    } else if d == 6 {
        '6'
    } else if d == 7 {
        '7'
    } else if d == 8 {
        '8'
    } else {
        '9'
    }
}

/// The decimal numeral of `n`, without sign and without leading zeros
/// (a single `'0'` for zero).
pub open spec fn spec_u64_str(n: int) -> Seq<char>
    decreases n,
{
    if n < 10 {
        seq![spec_digit(n)]
    } else {
        spec_u64_str(n / 10).push(spec_digit(n % 10))
    }
}

fn digit_str(d: u64) -> (r: &'static str)
    requires
        d < 10,
    ensures
        r@ =~= seq![spec_digit(d as int)],
{
    proof {
        reveal_strlit("0");
        reveal_strlit("1");
        reveal_strlit("2");
        reveal_strlit("3");
        reveal_strlit("4");
        reveal_strlit("5");
        reveal_strlit("6");
        reveal_strlit("7");
        reveal_strlit("8");
        reveal_strlit("9");
    }
    if d == 0 {
        "0"
    } else if d == 1 {
        "1"
    } else if d == 2 {
        "2"
    } else if d == 3 {
        "3"
    } else if d == 4 {
        "4"
    } else if d == 5 {
        "5"
    } else if d == 6 {
        "6"
    } else if d == 7 {
        "7"
    } else if d == 8 {
        "8"
    } else {
        "9"
    }
}

/// The decimal numeral of `n`, as a string.
pub fn u64_to_string(n: u64) -> (r: String)
    ensures
        r@ == spec_u64_str(n as int),
    decreases n,
{
    if n < 10 {
        String::from_str(digit_str(n))
    } else {
        let mut s = u64_to_string(n / 10);
        s.append(digit_str(n % 10));
        proof {
            assert(s@ =~= spec_u64_str(n as int));
        }
        s
    }
}

/// The numerals of `items`, joined by commas.
pub open spec fn spec_comma_join(items: Seq<usize>) -> Seq<char>
    decreases items.len(),
{
    if items.len() == 0 {
        Seq::empty()
    } else if items.len() == 1 {
        spec_u64_str(items[0] as int)
    } else {
        spec_comma_join(items.drop_last()) + seq![','] + spec_u64_str(items.last() as int)
    }
}

/// The numerals of `items`, joined by commas, as a string.
pub fn comma_join(items: &Vec<usize>) -> (r: String)
    ensures
        r@ == spec_comma_join(items@),
{
    let mut r = String::new();
    let mut i: usize = 0;
    while i < items.len()
        invariant
            i <= items@.len(),
            r@ == spec_comma_join(items@.subrange(0, i as int)),
        decreases items@.len() - i,
    {
        if i > 0 {
            proof {
                reveal_strlit(",");
            }
            r.append(",");
        }
        let num = u64_to_string(items[i] as u64);
        r.append(num.as_str());
        i = i + 1;
        proof {
            let pre = items@.subrange(0, i as int);
            assert(pre.drop_last() =~= items@.subrange(0, i - 1));
            if i > 1 {
                assert(r@ =~= spec_comma_join(pre));
            } else {
                assert(r@ =~= spec_comma_join(pre));
            }
        }
    }
    proof {
        assert(items@.subrange(0, items@.len() as int) =~= items@);
    }
    r
}

/// A decimal numeral is never empty and never starts with a dash.
pub proof fn lemma_u64_str_head(n: int)
    requires
        n >= 0,
    ensures
        spec_u64_str(n).len() >= 1,
        spec_u64_str(n)[0] != '-',
    decreases n,
{
    if n >= 10 {
        lemma_u64_str_head(n / 10);
    }
}

/// A comma-joined list of numerals is empty or starts with a digit, so it
/// is never a flag.
pub proof fn lemma_comma_join_head(items: Seq<usize>)
    requires
        items.len() > 0,
    ensures
        spec_comma_join(items).len() >= 1,
        spec_comma_join(items)[0] != '-',
    decreases items.len(),
{
    if items.len() == 1 {
        lemma_u64_str_head(items[0] as int);
    } else {
        lemma_comma_join_head(items.drop_last());
    }
}

/// The first index at or after `i` holding a newline, or the end of `s`.
pub open spec fn nl_end(s: Seq<char>, i: int) -> int
    decreases s.len() - i,
{
    if i < 0 || i >= s.len() {
        i
    } else if s[i] == '\n' {
        i
    } else {
        nl_end(s, i + 1)
    }
}

pub proof fn lemma_nl_end(s: Seq<char>, i: int)
    requires
        0 <= i <= s.len(),
    ensures
        i <= nl_end(s, i) <= s.len(),
    decreases s.len() - i,
{
    if i < s.len() && s[i] != '\n' {
        lemma_nl_end(s, i + 1);
    }
}

proof fn lemma_nl_end_shift(s: Seq<char>, a: int, j: int)
    requires
        0 <= a,
        0 <= j,
        a + j <= s.len(),
    ensures
        nl_end(s, a + j) == a + nl_end(s.skip(a), j),
    decreases s.len() - a - j,
{
    let t = s.skip(a);
    if a + j == s.len() {
    } else if s[a + j] == '\n' {
        assert(t[j] == '\n');
    } else {
        assert(t[j] != '\n');
        lemma_nl_end_shift(s, a, j + 1);
    }
}

/// `s` with one trailing carriage return removed, if it ends in one.
pub open spec fn strip_cr(s: Seq<char>) -> Seq<char> {
    if s.len() > 0 && s.last() == '\r' {
        s.drop_last()
    } else {
        s
    }
}

/// The lines of `s`: the pieces between newlines, each with one trailing
/// carriage return removed, and with no empty final piece when `s` ends
/// in a newline.
pub open spec fn spec_lines(s: Seq<char>) -> Seq<Seq<char>>
    decreases s.len(),
    via spec_lines_dec
{
    if s.len() == 0 {
        Seq::empty()
    } else {
        let i = nl_end(s, 0);
        if i == s.len() {
            seq![strip_cr(s)]
        } else {
            seq![strip_cr(s.take(i))] + spec_lines(s.skip(i + 1))
        }
    }
}

#[via_fn]
proof fn spec_lines_dec(s: Seq<char>) {
    if s.len() > 0 {
        lemma_nl_end(s, 0);
    }
}

fn split_lines_from(s: &str, v: &Vec<char>, start: usize) -> (r: Vec<String>)
    requires
        v@ == s@,
        start <= v@.len(),
    ensures
        r.deep_view() == spec_lines(v@.skip(start as int)),
    decreases v@.len() - start,
{
    let n = v.len();
    let ghost tail = v@.skip(start as int);
    if start == n {
        proof {
            assert(tail =~= Seq::<char>::empty());
        }
        return Vec::new();
    }
    let mut i: usize = start;
    while i < n && v[i] != '\n'
        invariant
            start <= i <= n,
            n == v@.len(),
            nl_end(v@, start as int) == nl_end(v@, i as int),
        decreases n - i,
    {
        i = i + 1;
    }
    proof {
        assert(nl_end(v@, start as int) == i);
        lemma_nl_end_shift(v@, start as int, 0);
        assert(nl_end(tail, 0) == i - start);
    }
    let end = if i > start && v[i - 1] == '\r' {
        i - 1
    } else {
        i
    };
    let piece = s.substring_char(start, end).to_owned();
    proof {
        if i == n {
            assert(strip_cr(tail) =~= v@.subrange(start as int, end as int));
        } else {
            assert(tail.take(i - start) =~= v@.subrange(start as int, i as int));
            assert(strip_cr(tail.take(i - start)) =~= v@.subrange(start as int, end as int));
        }
    }
    if i == n {
        let mut r: Vec<String> = Vec::new();
        r.push(piece);
        proof {
            assert(r.deep_view() =~= spec_lines(tail));
        }
        r
    } else {
        let mut rest = split_lines_from(s, v, i + 1);
        let ghost rest_dv = rest.deep_view();
        let mut r: Vec<String> = Vec::new();
        r.push(piece);
        r.append(&mut rest);
        proof {
            assert(tail.skip(i + 1 - start as int) =~= v@.skip(i + 1));
            assert(r.deep_view() =~= seq![piece@] + rest_dv);
            assert(r.deep_view() =~= spec_lines(tail));
        }
        r
    }
}

/// The lines of `s`, as owned strings.
pub fn split_lines(s: &str) -> (r: Vec<String>)
    ensures
        r.deep_view() == spec_lines(s@),
{
    let v = chars_vec(s);
    let r = split_lines_from(s, &v, 0);
    proof {
        assert(v@.skip(0) =~= v@);
    }
    r
}

} // verus!
