//! The progress parser: a stateless classifier that turns one line of the
//! downloader's text output into at most one structured progress event.
//!
//! The downloader's output format is not a stable contract, so the
//! classifier is an ordered list of pattern rules; a line that matches no
//! rule is silently dropped.  Percentages are held in hundredths of a
//! percent (`4250` stands for 42.5%), so `10000` is 100%; fractional
//! digits beyond the second are dropped.

use vstd::prelude::*;
use vstd::string::*;

use crate::strutil::{
    chars_vec, contains_seq, find_first, is_blank, match_at, match_here, spec_trim, starts_with,
    starts_with_seq, trim_str, view_opt,
};

verus! {

/// Character classes the progress grammar is built from.
#[derive(Debug, Clone, Copy, PartialEq, Eq)]
pub enum CharClass {
    /// A blank (space or tab).
    Blank,
    /// A decimal digit.
    Digit,
    /// A decimal digit or a dot.
    DigitDot,
    /// A letter, digit or underscore.
    Word,
    /// Anything but a blank.
    NonBlank,
}

/// A decimal digit.
pub open spec fn is_digit(c: char) -> bool {
    '0' <= c && c <= '9'
}

/// Membership of `c` in class `cl`.
pub open spec fn in_class(cl: CharClass, c: char) -> bool {
    match cl {
        CharClass::Blank => is_blank(c),
        CharClass::Digit => is_digit(c),
        CharClass::DigitDot => is_digit(c) || c == '.',
        CharClass::Word => is_digit(c) || ('a' <= c && c <= 'z') || ('A' <= c && c <= 'Z') || c
            == '_',
        CharClass::NonBlank => !is_blank(c),
    }
}

/// Executable twin of `in_class`.
pub fn class_of(cl: CharClass, c: char) -> (r: bool)
    ensures
        r == in_class(cl, c),
{
    match cl {
        CharClass::Blank => c == ' ' || c == '\t' || c == '\n' || c == '\r',
        CharClass::Digit => '0' <= c && c <= '9',
        CharClass::DigitDot => ('0' <= c && c <= '9') || c == '.',
        CharClass::Word => ('0' <= c && c <= '9') || ('a' <= c && c <= 'z') || ('A' <= c && c
            <= 'Z') || c == '_',
        CharClass::NonBlank => !(c == ' ' || c == '\t' || c == '\n' || c == '\r'),
    }
}

/// The end of the run of class `cl` that starts at `i`: the first index at
/// or after `i` holding no character of the class (or the end of `s`).
pub open spec fn run_end(s: Seq<char>, i: int, cl: CharClass) -> int
    decreases s.len() - i,
{
    if i < 0 || i >= s.len() {
        i
    } else if !in_class(cl, s[i]) {
        i
    } else {
        run_end(s, i + 1, cl)
    }
}

pub proof fn lemma_run_end(s: Seq<char>, i: int, cl: CharClass)
    requires
        0 <= i <= s.len(),
    ensures
        i <= run_end(s, i, cl) <= s.len(),
        forall|k: int| i <= k < run_end(s, i, cl) ==> in_class(cl, s[k]),
        run_end(s, i, cl) < s.len() ==> !in_class(cl, s[run_end(s, i, cl)]),
    decreases s.len() - i,
{
    if i < s.len() && in_class(cl, s[i]) {
        lemma_run_end(s, i + 1, cl);
    }
}

/// The end of the run of class `cl` in `v` that starts at `i`.
pub fn scan_run(v: &Vec<char>, i: usize, cl: CharClass) -> (r: usize)
    requires
        i <= v@.len(),
    ensures
        r == run_end(v@, i as int, cl),
        i <= r <= v@.len(),
{
    let n = v.len();
    let mut j: usize = i;
    while j < n && class_of(cl, v[j])
        invariant
            i <= j <= n,
            n == v@.len(),
            run_end(v@, i as int, cl) == run_end(v@, j as int, cl),
        decreases n - j,
    {
        j = j + 1;
    }
    j
}

/// The value of a decimal digit character.
pub open spec fn digit_val(c: char) -> int {
    c as int - '0' as int
}

/// The value of a run of decimal digit characters (0 for the empty run).
pub open spec fn digits_val(ds: Seq<char>) -> int
    decreases ds.len(),
{
    if ds.len() == 0 {
        0
    } else {
        digits_val(ds.drop_last()) * 10 + digit_val(ds.last())
    }
}

pub proof fn lemma_digits_val_nonneg(ds: Seq<char>)
    requires
        forall|k: int| 0 <= k < ds.len() ==> is_digit(ds[k]),
    ensures
        digits_val(ds) >= 0,
    decreases ds.len(),
{
    if ds.len() > 0 {
        lemma_digits_val_nonneg(ds.drop_last());
    }
}

/// Extending a digit run never shrinks its value.
pub proof fn lemma_digits_val_extend(ds: Seq<char>, k: int)
    requires
        0 <= k <= ds.len(),
        forall|j: int| 0 <= j < ds.len() ==> is_digit(ds[j]),
    ensures
        digits_val(ds) >= digits_val(ds.take(k)),
    decreases ds.len() - k,
{
    if k == ds.len() {
        assert(ds.take(k) =~= ds);
    } else {
        lemma_digits_val_extend(ds, k + 1);
        let p = ds.take(k + 1);
        assert(p.drop_last() =~= ds.take(k));
        assert(forall|j: int| 0 <= j < p.len() ==> is_digit(p[j]));
        lemma_digits_val_nonneg(p.drop_last());
        assert(digits_val(p) == digits_val(ds.take(k)) * 10 + digit_val(p.last()));
    }
}

/// The largest whole-percent value whose hundredths fit in a `u64`.
pub const PERCENT_CAP: u64 = 184467440737095515;

/// The value of the digit run `v[a..b]`, unless it exceeds `PERCENT_CAP`.
pub fn parse_digits_capped(v: &Vec<char>, a: usize, b: usize) -> (r: Option<u64>)
    requires
        a <= b <= v@.len(),
        forall|k: int| a <= k < b ==> is_digit(v@[k]),
    ensures
        ({
            let val = digits_val(v@.subrange(a as int, b as int));
            match r {
                Some(x) => x == val && val <= PERCENT_CAP,
                None => val > PERCENT_CAP,
            }
        }),
{
    let ghost ds = v@.subrange(a as int, b as int);
    let mut acc: u64 = 0;
    let mut i: usize = a;
    while i < b
        invariant
            a <= i <= b <= v@.len(),
            ds == v@.subrange(a as int, b as int),
            forall|k: int| a <= k < b ==> is_digit(v@[k]),
            acc == digits_val(ds.take(i - a)),
            acc <= PERCENT_CAP,
        decreases b - i,
    {
        let c = v[i];
        let d: u64 = (c as u32 - '0' as u32) as u64;
        proof {
            assert(is_digit(v@[i as int]));
            assert(d == digit_val(ds[i - a]));
            assert(ds.take(i - a + 1).drop_last() =~= ds.take(i - a));
        }
        if acc > PERCENT_CAP / 10 || (acc == PERCENT_CAP / 10 && d > PERCENT_CAP % 10) {
            proof {
                assert(digits_val(ds.take(i - a + 1)) == acc * 10 + d > PERCENT_CAP);
                lemma_digits_val_extend(ds, i - a + 1);
            }
            return None;
        }
        acc = acc * 10 + d;
        i = i + 1;
    }
    proof {
        assert(ds.take(b - a) =~= ds);
    }
    Some(acc)
}

/// The first index at or after `i` where `pat` occurs in `s`.
pub open spec fn first_at(s: Seq<char>, pat: Seq<char>, i: int) -> Option<int>
    decreases s.len() - i,
{
    if i < 0 || i > s.len() {
        None
    } else if match_at(s, pat, i) {
        Some(i)
    } else if i == s.len() {
        None
    } else {
        first_at(s, pat, i + 1)
    }
}

/// The index of the first occurrence of `pat` in `s`.
pub open spec fn find_spec(s: Seq<char>, pat: Seq<char>) -> Option<int> {
    first_at(s, pat, 0)
}

pub proof fn lemma_first_at_skip(s: Seq<char>, pat: Seq<char>, a: int, i: int)
    requires
        0 <= a <= i <= s.len(),
        forall|j: int| a <= j < i ==> !match_at(s, pat, j),
    ensures
        first_at(s, pat, a) == first_at(s, pat, i),
    decreases i - a,
{
    if a < i {
        lemma_first_at_skip(s, pat, a + 1, i);
    }
}

/// `find_first` computes `find_spec`.
pub proof fn lemma_find_first_is_find_spec(s: Seq<char>, pat: Seq<char>, r: Option<usize>)
    requires
        pat.len() > 0,
        match r {
            Some(i) => match_at(s, pat, i as int) && forall|j: int|
                0 <= j < i ==> !match_at(s, pat, j),
            None => !contains_seq(s, pat),
        },
    ensures
        match r {
            Some(i) => find_spec(s, pat) == Some(i as int),
            None => find_spec(s, pat) is None,
        },
{
    match r {
        Some(i) => {
            assert(i + pat.len() <= s.len());
            lemma_first_at_skip(s, pat, 0, i as int);
        },
        None => {
            assert(forall|j: int| !match_at(s, pat, j));
            lemma_first_at_skip(s, pat, 0, s.len() as int);
            assert(!match_at(s, pat, s.len() as int));
        },
    }
}

/// The parsed groups of a progress line: percentage in hundredths (absent
/// when the numeral's value cannot be represented), speed token, ETA token.
pub struct ProgressGroups {
    pub percent: Option<u64>,
    pub speed: Option<Seq<char>>,
    pub eta: Option<Seq<char>>,
}

/// Hundredths contributed by the fractional digits of a percentage
/// numeral; digits beyond the second are dropped.
pub open spec fn frac_hundredths(fs: Seq<char>) -> int {
    if fs.len() == 0 {
        0
    } else if fs.len() == 1 {
        digit_val(fs[0]) * 10
    } else {
        digit_val(fs[0]) * 10 + digit_val(fs[1])
    }
}

/// The percentage in hundredths named by integer digits `ipart` and
/// fractional digits `fpart`, when its whole part is representable.
pub open spec fn percent_of(ipart: Seq<char>, fpart: Seq<char>) -> Option<u64> {
    if digits_val(ipart) <= PERCENT_CAP {
        Some((digits_val(ipart) * 100 + frac_hundredths(fpart)) as u64)
    } else {
        None
    }
}

/// The optional speed group at position `p`: one or more blanks, `at`,
/// one or more blanks, then a token of digits and dots followed by word
/// characters and `/s`.  Yields the token and the position after it, or
/// leaves the position unchanged.
pub open spec fn speed_opt(s: Seq<char>, p: int) -> (Option<Seq<char>>, int) {
    let a = run_end(s, p, CharClass::Blank);
    if a == p || !match_at(s, "at"@, a) {
        (None, p)
    } else {
        let b = a + "at"@.len();
        let c = run_end(s, b, CharClass::Blank);
        if c == b {
            (None, p)
        } else {
            let d = run_end(s, c, CharClass::DigitDot);
            if d == c {
                (None, p)
            } else {
                let e = run_end(s, d, CharClass::Word);
                if e == d || !match_at(s, "/s"@, e) {
                    (None, p)
                } else {
                    (Some(s.subrange(c, e + "/s"@.len())), e + "/s"@.len())
                }
            }
        }
    }
}

/// The optional ETA group at position `p`: one or more blanks, `ETA`,
/// one or more blanks, then a run of non-blank characters.
pub open spec fn eta_opt(s: Seq<char>, p: int) -> Option<Seq<char>> {
    let a = run_end(s, p, CharClass::Blank);
    if a == p || !match_at(s, "ETA"@, a) {
        None
    } else {
        let b = a + "ETA"@.len();
        let c = run_end(s, b, CharClass::Blank);
        if c == b {
            None
        } else {
            let d = run_end(s, c, CharClass::NonBlank);
            if d == c {
                None
            } else {
                Some(s.subrange(c, d))
            }
        }
    }
}

/// The progress pattern anchored at `i`: `[download]`, blanks, a decimal
/// numeral, `%`, blanks, `of`, blanks, an optional `~`, a size token,
/// then the optional speed and ETA groups.  Runs are maximal.
pub open spec fn progress_at(s: Seq<char>, i: int) -> Option<ProgressGroups> {
    if !match_at(s, "[download]"@, i) {
        None
    } else {
        let j0 = i + "[download]"@.len();
        let j1 = run_end(s, j0, CharClass::Blank);
        if j1 == j0 {
            None
        } else {
            let j2 = run_end(s, j1, CharClass::Digit);
            if j2 == j1 {
                None
            } else {
                let j3 = if j2 < s.len() && s[j2] == '.' {
                    run_end(s, j2 + 1, CharClass::Digit)
                } else {
                    j2
                };
                if !(j3 < s.len() && s[j3] == '%') {
                    None
                } else {
                    let j4 = run_end(s, j3 + 1, CharClass::Blank);
                    if j4 == j3 + 1 || !match_at(s, "of"@, j4) {
                        None
                    } else {
                        let j5 = j4 + "of"@.len();
                        let j6 = run_end(s, j5, CharClass::Blank);
                        if j6 == j5 {
                            None
                        } else {
                            let j7 = if j6 < s.len() && s[j6] == '~' {
                                j6 + 1
                            } else {
                                j6
                            };
                            let j8 = run_end(s, j7, CharClass::Blank);
                            let j9 = run_end(s, j8, CharClass::DigitDot);
                            if j9 == j8 {
                                None
                            } else {
                                let j10 = run_end(s, j9, CharClass::Word);
                                if j10 == j9 {
                                    None
                                } else {
                                    let ipart = s.subrange(j1, j2);
                                    let fpart = if j3 > j2 {
                                        s.subrange(j2 + 1, j3)
                                    } else {
                                        Seq::<char>::empty()
                                    };
                                    let sp = speed_opt(s, j10);
                                    Some(
                                        ProgressGroups {
                                            percent: percent_of(ipart, fpart),
                                            speed: sp.0,
                                            eta: eta_opt(s, sp.1),
                                        },
                                    )
                                }
                            }
                        }
                    }
                }
            }
        }
    }
}

/// The groups of the leftmost progress match at or after `i`, if any.
pub open spec fn first_progress_from(s: Seq<char>, i: int) -> Option<ProgressGroups>
    decreases s.len() - i,
{
    if i < 0 || i > s.len() {
        None
    } else if progress_at(s, i) is Some {
        progress_at(s, i)
    } else if i == s.len() {
        None
    } else {
        first_progress_from(s, i + 1)
    }
}

/// The groups of the leftmost progress match in `s`, if any.
pub open spec fn first_progress(s: Seq<char>) -> Option<ProgressGroups> {
    first_progress_from(s, 0)
}

/// One structured progress event, derived from one line of the
/// downloader's output or synthesized around a download.  Consumers must
/// tolerate any subset of the optional fields being absent and must not
/// assume that percentages grow monotonically.
#[derive(Debug, Clone, PartialEq)]
pub struct DownloadProgress {
    /// One of `extracting`, `starting`, `downloading`, `processing`,
    /// `completed`, `error`.
    pub status: String,
    /// Percentage in hundredths of a percent: 10000 is 100%.
    pub percentage: Option<u64>,
    pub speed: Option<String>,
    pub eta: Option<String>,
    pub filename: Option<String>,
    pub total_bytes: Option<u64>,
    pub downloaded_bytes: Option<u64>,
}

/// The mathematical model of a progress event.
pub struct EventModel {
    pub status: Seq<char>,
    pub percentage: Option<u64>,
    pub speed: Option<Seq<char>>,
    pub eta: Option<Seq<char>>,
    pub filename: Option<Seq<char>>,
    pub total_bytes: Option<u64>,
    pub downloaded_bytes: Option<u64>,
}

impl View for DownloadProgress {
    type V = EventModel;

    open spec fn view(&self) -> EventModel {
        EventModel {
            status: self.status@,
            percentage: self.percentage,
            speed: view_opt(self.speed),
            eta: view_opt(self.eta),
            filename: view_opt(self.filename),
            total_bytes: self.total_bytes,
            downloaded_bytes: self.downloaded_bytes,
        }
    }
}

/// An event whose only payload is its status tag and a percentage.
pub open spec fn plain_event(status: Seq<char>, percentage: u64) -> EventModel {
    EventModel {
        status: status,
        percentage: Some(percentage),
        speed: None,
        eta: None,
        filename: None,
        total_bytes: None,
        downloaded_bytes: None,
    }
}

/// A line reporting the metadata-extraction phase.
pub open spec fn is_extraction_line(s: Seq<char>) -> bool {
    starts_with_seq(s, "[youtube]"@) || starts_with_seq(s, "[info]"@) || contains_seq(
        s,
        "Extracting"@,
    )
}

/// A line reporting the merge or audio-extraction phase.
pub open spec fn is_processing_line(s: Seq<char>) -> bool {
    contains_seq(s, "[Merger]"@) || contains_seq(s, "[ExtractAudio]"@)
}

/// What `classify` returns on a line with view `s`: the first rule wins.
/// An extraction marker yields `extracting`; a progress match yields
/// `downloading` with the parsed groups; a destination marker yields
/// `starting` with the trimmed remainder as filename; a processing marker
/// yields `processing`; anything else yields nothing.
pub open spec fn spec_classify(s: Seq<char>) -> Option<EventModel> {
    if is_extraction_line(s) {
        Some(plain_event("extracting"@, 0))
    } else {
        match first_progress(s) {
            Some(g) => Some(
                EventModel {
                    status: "downloading"@,
                    percentage: g.percent,
                    speed: g.speed,
                    eta: g.eta,
                    filename: None,
                    total_bytes: None,
                    downloaded_bytes: None,
                },
            ),
            None => {
                match find_spec(s, "[download] Destination:"@) {
                    Some(i) => Some(
                        EventModel {
                            status: "starting"@,
                            percentage: Some(0),
                            speed: None,
                            eta: None,
                            filename: Some(
                                spec_trim(
                                    s.subrange(
                                        i + "[download] Destination:"@.len(),
                                        s.len() as int,
                                    ),
                                ),
                            ),
                            total_bytes: None,
                            downloaded_bytes: None,
                        },
                    ),
                    None => {
                        if is_processing_line(s) {
                            Some(plain_event("processing"@, 10000))
                        } else {
                            None
                        }
                    },
                }
            },
        }
    }
}

/// The parsed groups of a progress line, as runtime values.
pub struct ParsedGroups {
    pub percent: Option<u64>,
    pub speed: Option<String>,
    pub eta: Option<String>,
}

fn try_speed(s: &str, v: &Vec<char>, at_pat: &Vec<char>, ps_pat: &Vec<char>, p: usize) -> (r: (
    Option<String>,
    usize,
))
    requires
        v@ == s@,
        p <= v@.len(),
        at_pat@ == "at"@,
        ps_pat@ == "/s"@,
    ensures
        ({
            let m = speed_opt(v@, p as int);
            view_opt(r.0) == m.0 && r.1 == m.1 && r.1 <= v@.len()
        }),
{
    let n = v.len();
    let a = scan_run(v, p, CharClass::Blank);
    if a == p || !match_here(v, at_pat, a) {
        return (None, p);
    }
    proof {
        assert(a + at_pat@.len() <= n);
    }
    let b = a + at_pat.len();
    let c = scan_run(v, b, CharClass::Blank);
    if c == b {
        return (None, p);
    }
    let d = scan_run(v, c, CharClass::DigitDot);
    if d == c {
        return (None, p);
    }
    let e = scan_run(v, d, CharClass::Word);
    if e == d || !match_here(v, ps_pat, e) {
        return (None, p);
    }
    proof {
        assert(e + ps_pat@.len() <= n);
    }
    let q = e + ps_pat.len();
    let token = s.substring_char(c, q).to_owned();
    (Some(token), q)
}

fn try_eta(s: &str, v: &Vec<char>, eta_pat: &Vec<char>, p: usize) -> (r: Option<String>)
    requires
        v@ == s@,
        p <= v@.len(),
        eta_pat@ == "ETA"@,
    ensures
        view_opt(r) == eta_opt(v@, p as int),
{
    let n = v.len();
    let a = scan_run(v, p, CharClass::Blank);
    if a == p || !match_here(v, eta_pat, a) {
        return None;
    }
    proof {
        assert(a + eta_pat@.len() <= n);
    }
    let b = a + eta_pat.len();
    let c = scan_run(v, b, CharClass::Blank);
    if c == b {
        return None;
    }
    let d = scan_run(v, c, CharClass::NonBlank);
    if d == c {
        return None;
    }
    Some(s.substring_char(c, d).to_owned())
}

fn digit_at(v: &Vec<char>, i: usize) -> (r: u64)
    requires
        i < v@.len(),
        is_digit(v@[i as int]),
    ensures
        r == digit_val(v@[i as int]),
        r <= 9,
{
    let c = v[i];
    (c as u32 - '0' as u32) as u64
}

fn try_progress_at(
    s: &str,
    v: &Vec<char>,
    dl_pat: &Vec<char>,
    of_pat: &Vec<char>,
    at_pat: &Vec<char>,
    ps_pat: &Vec<char>,
    eta_pat: &Vec<char>,
    i: usize,
) -> (r: Option<ParsedGroups>)
    requires
        v@ == s@,
        i <= v@.len(),
        dl_pat@ == "[download]"@,
        of_pat@ == "of"@,
        at_pat@ == "at"@,
        ps_pat@ == "/s"@,
        eta_pat@ == "ETA"@,
    ensures
        ({
            let m = progress_at(v@, i as int);
            match r {
                Some(g) => m matches Some(f) && g.percent == f.percent && view_opt(g.speed)
                    == f.speed && view_opt(g.eta) == f.eta,
                None => m is None,
            }
        }),
{
    let n = v.len();
    if !match_here(v, dl_pat, i) {
        return None;
    }
    let j0 = i + dl_pat.len();
    let j1 = scan_run(v, j0, CharClass::Blank);
    if j1 == j0 {
        return None;
    }
    let j2 = scan_run(v, j1, CharClass::Digit);
    if j2 == j1 {
        return None;
    }
    let has_dot = j2 < n && v[j2] == '.';
    let j3 = if has_dot {
        scan_run(v, j2 + 1, CharClass::Digit)
    } else {
        j2
    };
    if !(j3 < n && v[j3] == '%') {
        return None;
    }
    let j4 = scan_run(v, j3 + 1, CharClass::Blank);
    if j4 == j3 + 1 || !match_here(v, of_pat, j4) {
        return None;
    }
    let j5 = j4 + of_pat.len();
    let j6 = scan_run(v, j5, CharClass::Blank);
    if j6 == j5 {
        return None;
    }
    let j7 = if j6 < n && v[j6] == '~' {
        j6 + 1
    } else {
        j6
    };
    let j8 = scan_run(v, j7, CharClass::Blank);
    let j9 = scan_run(v, j8, CharClass::DigitDot);
    if j9 == j8 {
        return None;
    }
    let j10 = scan_run(v, j9, CharClass::Word);
    if j10 == j9 {
        return None;
    }
    proof {
        lemma_run_end(v@, j1 as int, CharClass::Digit);
    }
    let whole = parse_digits_capped(v, j1, j2);
    let mut frac: u64 = 0;
    if has_dot {
        proof {
            lemma_run_end(v@, j2 + 1, CharClass::Digit);
        }
        if j2 + 1 < j3 {
            frac = digit_at(v, j2 + 1) * 10;
            if j2 + 2 < j3 {
                frac = frac + digit_at(v, j2 + 2);
            }
        }
    }
    let ghost ipart = v@.subrange(j1 as int, j2 as int);
    let ghost fpart = if j3 > j2 {
        v@.subrange(j2 + 1, j3 as int)
    } else {
        Seq::<char>::empty()
    };
    proof {
        assert(frac == frac_hundredths(fpart));
        lemma_digits_val_nonneg(ipart);
    }
    let percent: Option<u64> = match whole {
        Some(x) => Some(x * 100 + frac),
        None => None,
    };
    proof {
        assert(percent == percent_of(ipart, fpart));
    }
    let sp = try_speed(s, v, at_pat, ps_pat, j10);
    let eta = try_eta(s, v, eta_pat, sp.1);
    Some(ParsedGroups { percent, speed: sp.0, eta })
}

/// An event holding only a status tag and a percentage.
pub fn plain_progress(status: &str, percentage: u64) -> (r: DownloadProgress)
    ensures
        r@ == plain_event(status@, percentage),
{
    DownloadProgress {
        status: status.to_owned(),
        percentage: Some(percentage),
        speed: None,
        eta: None,
        filename: None,
        total_bytes: None,
        downloaded_bytes: None,
    }
}

/// Classifies one line of the downloader's output into at most one
/// progress event.  This is a total function: a line that matches no rule
/// yields nothing and is never an error.
pub fn classify(line: &String) -> (r: Option<DownloadProgress>)
    ensures
        match r {
            Some(ev) => spec_classify(line@) == Some(ev@),
            None => spec_classify(line@) is None,
        },
{
    let s = line.as_str();
    let v = chars_vec(s);
    let n = v.len();

    let yt_pat = chars_vec("[youtube]");
    let info_pat = chars_vec("[info]");
    let extr_pat = chars_vec("Extracting");
    if starts_with(&v, &yt_pat) || starts_with(&v, &info_pat) || find_first(
        &v,
        &extr_pat,
    ).is_some() {
        return Some(plain_progress("extracting", 0));
    }
    proof {
        assert(!is_extraction_line(v@));
    }

    let dl_pat = chars_vec("[download]");
    let of_pat = chars_vec("of");
    let at_pat = chars_vec("at");
    let ps_pat = chars_vec("/s");
    let eta_pat = chars_vec("ETA");
    let mut i: usize = 0;
    while i < n
        invariant
            i <= n,
            n == v@.len(),
            v@ == s@,
            v@ == line@,
            dl_pat@ == "[download]"@,
            of_pat@ == "of"@,
            at_pat@ == "at"@,
            ps_pat@ == "/s"@,
            eta_pat@ == "ETA"@,
            !is_extraction_line(line@),
            first_progress(v@) == first_progress_from(v@, i as int),
        decreases n - i,
    {
        let g = try_progress_at(s, &v, &dl_pat, &of_pat, &at_pat, &ps_pat, &eta_pat, i);
        match g {
            Some(g) => {
                return Some(
                    DownloadProgress {
                        status: "downloading".to_owned(),
                        percentage: g.percent,
                        speed: g.speed,
                        eta: g.eta,
                        filename: None,
                        total_bytes: None,
                        downloaded_bytes: None,
                    },
                );
            },
            None => {
                i = i + 1;
            },
        }
    }
    proof {
        reveal_strlit("[download]");
        assert(!match_at(v@, "[download]"@, n as int));
        assert(first_progress_from(v@, n as int) is None);
        assert(first_progress(line@) is None);
    }

    let dest_pat = chars_vec("[download] Destination:");
    proof {
        reveal_strlit("[download] Destination:");
    }
    match find_first(&v, &dest_pat) {
        Some(idx) => {
            proof {
                lemma_find_first_is_find_spec(v@, dest_pat@, Some(idx));
                assert(idx + dest_pat@.len() <= n);
            }
            let rest = s.substring_char(idx + dest_pat.len(), n);
            let filename = trim_str(rest);
            return Some(
                DownloadProgress {
                    status: "starting".to_owned(),
                    percentage: Some(0),
                    speed: None,
                    eta: None,
                    filename: Some(filename),
                    total_bytes: None,
                    downloaded_bytes: None,
                },
            );
        },
        None => {
            proof {
                lemma_find_first_is_find_spec(v@, dest_pat@, None);
            }
        },
    }

    let merger_pat = chars_vec("[Merger]");
    let xa_pat = chars_vec("[ExtractAudio]");
    if find_first(&v, &merger_pat).is_some() || find_first(&v, &xa_pat).is_some() {
        return Some(plain_progress("processing", 10000));
    }
    proof {
        assert(!is_processing_line(line@));
    }
    None
}

/// Law: a line without an extraction marker that matches the progress
/// pattern with a representable numeral of at most 100% classifies as
/// `downloading`, and its percentage is exactly the value parsed from the
/// matched numeral, whether or not the speed and ETA groups are present.
pub proof fn lemma_progress_line_classifies_downloading(s: Seq<char>)
    requires
        !is_extraction_line(s),
        first_progress(s) is Some,
        first_progress(s)->0.percent matches Some(p) && p <= 10000,
    ensures
        spec_classify(s) is Some,
        spec_classify(s)->0.status == "downloading"@,
        spec_classify(s)->0.percentage == first_progress(s)->0.percent,
        spec_classify(s)->0.percentage matches Some(q) && 0 <= q <= 10000,
{
}

/// Law: a line with no recognized marker classifies as nothing; dropping
/// such a line is the intended outcome, never a failure.
pub proof fn lemma_unrecognized_line_classifies_none(s: Seq<char>)
    requires
        !is_extraction_line(s),
        first_progress(s) is None,
        find_spec(s, "[download] Destination:"@) is None,
        !is_processing_line(s),
    ensures
        spec_classify(s) is None,
{
}

} // verus!
