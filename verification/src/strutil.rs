//! Verified string helpers: substring search, prefix handling and
//! decimal formatting of counters, all specified over `Seq<char>` views.

use vstd::prelude::*;

verus! {

/// The needle `n` occurs in `h` starting at position `i`.
pub open spec fn matches_at(h: Seq<char>, n: Seq<char>, i: int) -> bool {
    0 <= i && i + n.len() <= h.len() && h.subrange(i, i + n.len()) == n
}

/// The needle `n` occurs somewhere in `h`.
pub open spec fn contains_seq(h: Seq<char>, n: Seq<char>) -> bool {
    exists|i: int| matches_at(h, n, i)
}

/// `p` is a prefix of `h`.
pub open spec fn has_prefix(h: Seq<char>, p: Seq<char>) -> bool {
    p.len() <= h.len() && h.subrange(0, p.len() as int) == p
}

/// Compare one position of the needle against the haystack.
fn chars_match(h: &str, n: &str, i: usize) -> (r: bool)
    requires
        i + n@.len() <= h@.len(),
        h@.len() <= usize::MAX,
    ensures
        r == matches_at(h@, n@, i as int),
{
    let nl = n.unicode_len();
    let mut j: usize = 0;
    while j < nl
        invariant
            nl == n@.len(),
            j <= nl,
            i + nl <= h@.len(),
            h@.len() <= usize::MAX,
            forall|k: int| 0 <= k < j ==> h@[i + k] == n@[k],
        decreases nl - j,
    {
        let hc = h.get_char(i + j);
        let nc = n.get_char(j);
        if hc != nc {
            proof {
                assert(h@.subrange(i as int, i + n@.len())[j as int] == h@[i + j]);
            }
            return false;
        }
        j += 1;
    }
    proof {
        assert(h@.subrange(i as int, i + n@.len()) =~= n@);
    }
    true
}

/// Substring search: does `h` contain `n`?
pub fn str_contains(h: &str, n: &str) -> (r: bool)
    ensures
        r == contains_seq(h@, n@),
{
    let hl = h.unicode_len();
    let nl = n.unicode_len();
    if nl > hl {
        proof {
            assert(forall|i: int| !matches_at(h@, n@, i)) by {
                assert(forall|i: int| matches_at(h@, n@, i) ==> i + n@.len() <= h@.len());
            }
        }
        return false;
    }
    let limit = hl - nl;
    let mut i: usize = 0;
    loop
        invariant
            hl == h@.len(),
            nl == n@.len(),
            nl <= hl,
            limit == hl - nl,
            i <= limit,
            forall|k: int| 0 <= k < i ==> !matches_at(h@, n@, k),
        ensures
            forall|k: int| 0 <= k <= limit ==> !matches_at(h@, n@, k),
        decreases limit - i,
    {
        if chars_match(h, n, i) {
            return true;
        }
        if i == limit {
            break;
        }
        i += 1;
    }
    proof {
        assert(forall|k: int| matches_at(h@, n@, k) ==> 0 <= k <= hl - nl);
    }
    false
}

/// Character-for-character string equality.
pub fn str_eq(a: &str, b: &str) -> (r: bool)
    ensures
        r == (a@ == b@),
{
    let al = a.unicode_len();
    let bl = b.unicode_len();
    if al != bl {
        proof {
            assert(a@ != b@) by {
                assert(a@.len() != b@.len());
            }
        }
        return false;
    }
    let r = chars_match(a, b, 0);
    proof {
        if r {
            assert(a@.subrange(0, a@.len() as int) =~= a@);
        } else {
            assert(a@.subrange(0, b@.len() as int) =~= a@);
        }
    }
    r
}

/// Prefix test: does `h` start with `p`?
pub fn str_has_prefix(h: &str, p: &str) -> (r: bool)
    ensures
        r == has_prefix(h@, p@),
{
    let hl = h.unicode_len();
    let pl = p.unicode_len();
    if pl > hl {
        return false;
    }
    chars_match(h, p, 0)
}

/// Remove the prefix `p` from `h`, if present.
pub fn str_strip_prefix(h: &str, p: &str) -> (r: Option<String>)
    ensures
        match r {
            Some(rest) => has_prefix(h@, p@) && h@ == p@ + rest@,
            None => !has_prefix(h@, p@),
        },
{
    let hl = h.unicode_len();
    let pl = p.unicode_len();
    if pl > hl {
        return None;
    }
    if chars_match(h, p, 0) {
        let rest = h.substring_char(pl, hl);
        proof {
            assert(h@ =~= p@ + rest@);
        }
        Some(rest.to_owned())
    } else {
        None
    }
}

/// Case-insensitive match of two ASCII letters (or exact match otherwise).
pub open spec fn eq_ignore_ascii_case_char(a: char, b: char) -> bool {
    a == b
    || ('A' <= a && a <= 'Z' && b as u32 == a as u32 + 32)
    || ('A' <= b && b <= 'Z' && a as u32 == b as u32 + 32)
}

/// Case-insensitive equality of two strings, ASCII letters only.
pub open spec fn eq_ignore_ascii_case_seq(a: Seq<char>, b: Seq<char>) -> bool {
    a.len() == b.len() && forall|i: int| 0 <= i < a.len() ==> eq_ignore_ascii_case_char(a[i], b[i])
}

/// ASCII-case-insensitive string comparison.
pub fn str_eq_ignore_ascii_case(a: &str, b: &str) -> (r: bool)
    ensures
        r == eq_ignore_ascii_case_seq(a@, b@),
{
    let al = a.unicode_len();
    let bl = b.unicode_len();
    if al != bl {
        return false;
    }
    let mut i: usize = 0;
    while i < al
        invariant
            al == a@.len(),
            al == b@.len(),
            i <= al,
            forall|k: int| 0 <= k < i ==> eq_ignore_ascii_case_char(a@[k], b@[k]),
        decreases al - i,
    {
        let ac = a.get_char(i);
        let bc = b.get_char(i);
        let same = if ac == bc {
            true
        } else {
            let au = ac as u32;
            let bu = bc as u32;
            ('A' <= ac && ac <= 'Z' && bu == au + 32) || ('A' <= bc && bc <= 'Z' && au == bu + 32)
        };
        if !same {
            return false;
        }
        i += 1;
    }
    true
}

/// The whitespace characters the trimming helpers strip.
pub open spec fn is_space_char(c: char) -> bool {
    c == ' ' || c == '\t' || c == '\r' || c == '\n'
}

/// `s` without its leading whitespace.
pub open spec fn trim_front_spec(s: Seq<char>) -> Seq<char>
    decreases s.len(),
{
    if s.len() > 0 && is_space_char(s[0]) {
        trim_front_spec(s.skip(1))
    } else {
        s
    }
}

/// `s` without its trailing whitespace.
pub open spec fn trim_back_spec(s: Seq<char>) -> Seq<char>
    decreases s.len(),
{
    if s.len() > 0 && is_space_char(s.last()) {
        trim_back_spec(s.drop_last())
    } else {
        s
    }
}

/// `s` without leading or trailing whitespace.
pub open spec fn trim_spec(s: Seq<char>) -> Seq<char> {
    trim_back_spec(trim_front_spec(s))
}

/// When everything before `i` is whitespace and `i` is not (or the end),
/// trimming the front stops exactly at `i`.
proof fn lemma_trim_front_at(s: Seq<char>, i: int)
    requires
        0 <= i <= s.len(),
        forall|j: int| 0 <= j < i ==> is_space_char(s[j]),
        i == s.len() || !is_space_char(s[i]),
    ensures
        trim_front_spec(s) == s.skip(i),
    decreases i,
{
    if i == 0 {
        assert(s.skip(0) =~= s);
    } else {
        assert(is_space_char(s[0]));
        lemma_trim_front_at(s.skip(1), i - 1);
        assert(s.skip(1).skip(i - 1) =~= s.skip(i));
    }
}

/// When everything from `e` on is whitespace and `e - 1` is not (or the
/// start), trimming the back stops exactly at `e`.
proof fn lemma_trim_back_at(s: Seq<char>, e: int)
    requires
        0 <= e <= s.len(),
        forall|j: int| e <= j < s.len() ==> is_space_char(s[j]),
        e == 0 || !is_space_char(s[e - 1]),
    ensures
        trim_back_spec(s) == s.take(e),
    decreases s.len(),
{
    if e == s.len() {
        if s.len() == 0 {
            assert(s.take(e) =~= s);
        } else {
            assert(!is_space_char(s.last()));
            assert(s.take(e) =~= s);
        }
    } else {
        assert(is_space_char(s.last()));
        lemma_trim_back_at(s.drop_last(), e);
        assert(s.drop_last().take(e) =~= s.take(e));
    }
}

/// Is `c` one of the whitespace characters the trimming helpers strip?
fn is_space(c: char) -> (r: bool)
    ensures
        r == is_space_char(c),
{
    c == ' ' || c == '\t' || c == '\r' || c == '\n'
}

/// Strip leading and trailing whitespace.
#[verifier::loop_isolation(false)]
pub fn str_trim(s: &str) -> (r: String)
    ensures
        r@ == trim_spec(s@),
{
    let n = s.unicode_len();
    let mut start: usize = 0;
    while start < n && is_space(s.get_char(start))
        invariant
            start <= n,
            forall|j: int| 0 <= j < start ==> is_space_char(s@[j]),
        decreases n - start,
    {
        start += 1;
    }
    proof {
        lemma_trim_front_at(s@, start as int);
    }
    let mut end: usize = n;
    while end > start && is_space(s.get_char(end - 1))
        invariant
            start <= end <= n,
            forall|j: int| end <= j < n ==> is_space_char(s@[j]),
        decreases end,
    {
        end -= 1;
    }
    let r = s.substring_char(start, end).to_owned();
    proof {
        let t = s@.skip(start as int);
        assert(forall|j: int|
            end - start <= j < t.len() ==> is_space_char(#[trigger] t[j]));
        if end > start {
            assert(t[end - start - 1] == s@[end - 1]);
        }
        lemma_trim_back_at(t, end - start);
        assert(t.take(end - start) =~= s@.subrange(start as int, end as int));
    }
    r
}

/// Find the first occurrence of `c` in `s`.
pub fn find_char(s: &str, c: char) -> (r: Option<usize>)
    ensures
        match r {
            Some(i) => i < s@.len() && s@[i as int] == c && forall|j: int|
                0 <= j < i ==> s@[j] != c,
            None => forall|j: int| 0 <= j < s@.len() ==> s@[j] != c,
        },
{
    let n = s.unicode_len();
    let mut i: usize = 0;
    while i < n
        invariant
            n == s@.len(),
            i <= n,
            forall|j: int| 0 <= j < i ==> s@[j] != c,
        decreases n - i,
    {
        if s.get_char(i) == c {
            return Some(i);
        }
        i += 1;
    }
    None
}

/// `s` split at every occurrence of `sep`; always at least one segment.
pub open spec fn split_sep_spec(s: Seq<char>, sep: char) -> Seq<Seq<char>>
    decreases s.len(),
{
    if s.len() == 0 {
        seq![Seq::<char>::empty()]
    } else if s[0] == sep {
        seq![Seq::<char>::empty()] + split_sep_spec(s.skip(1), sep)
    } else {
        let rest = split_sep_spec(s.skip(1), sep);
        seq![seq![s[0]] + rest[0]] + rest.skip(1)
    }
}

/// The split never comes back empty.
pub proof fn lemma_split_sep_nonempty(s: Seq<char>, sep: char)
    ensures
        split_sep_spec(s, sep).len() >= 1,
    decreases s.len(),
{
    if s.len() > 0 {
        lemma_split_sep_nonempty(s.skip(1), sep);
    }
}

/// A separator-free string is one segment.
proof fn lemma_split_sep_none(s: Seq<char>, sep: char)
    requires
        forall|j: int| 0 <= j < s.len() ==> s[j] != sep,
    ensures
        split_sep_spec(s, sep) == seq![s],
    decreases s.len(),
{
    if s.len() == 0 {
        assert(split_sep_spec(s, sep) =~~= seq![s]);
    } else {
        assert(forall|j: int| 0 <= j < s.skip(1).len() ==> s.skip(1)[j] != sep);
        lemma_split_sep_none(s.skip(1), sep);
        let rest = split_sep_spec(s.skip(1), sep);
        assert(rest[0] == s.skip(1));
        assert(seq![s[0]] + s.skip(1) =~= s);
        assert(split_sep_spec(s, sep) =~~= seq![s]);
    }
}

/// With the first separator at `i`, the split is the head segment
/// followed by the split of what follows it.
proof fn lemma_split_sep_at_first(s: Seq<char>, sep: char, i: int)
    requires
        0 <= i < s.len(),
        s[i] == sep,
        forall|j: int| 0 <= j < i ==> s[j] != sep,
    ensures
        split_sep_spec(s, sep) == seq![s.take(i)] + split_sep_spec(s.skip(i + 1), sep),
    decreases i,
{
    if i == 0 {
        assert(s.take(0) =~= Seq::<char>::empty());
        assert(split_sep_spec(s, sep) =~~= seq![s.take(0)] + split_sep_spec(s.skip(1), sep));
    } else {
        let t = s.skip(1);
        assert(t[i - 1] == sep);
        assert(forall|j: int| 0 <= j < i - 1 ==> t[j] != sep);
        lemma_split_sep_at_first(t, sep, i - 1);
        lemma_split_sep_nonempty(t.skip(i), sep);
        let rest = split_sep_spec(t, sep);
        assert(rest[0] == t.take(i - 1));
        assert(seq![s[0]] + t.take(i - 1) =~= s.take(i));
        assert(rest.skip(1) =~~= split_sep_spec(t.skip(i), sep));
        assert(t.skip(i) =~= s.skip(i + 1));
        assert(split_sep_spec(s, sep) =~~= seq![s.take(i)] + split_sep_spec(s.skip(i + 1), sep));
    }
}

/// Split `s` at every occurrence of `sep`.
pub fn split_sep(s: &str, sep: char) -> (r: Vec<String>)
    ensures
        r.deep_view() == split_sep_spec(s@, sep),
    decreases s@.len(),
{
    let n = s.unicode_len();
    match find_char(s, sep) {
        None => {
            let mut r: Vec<String> = Vec::new();
            r.push(s.to_owned());
            proof {
                lemma_split_sep_none(s@, sep);
                assert(r.deep_view() =~~= split_sep_spec(s@, sep));
            }
            r
        },
        Some(i) => {
            let head = s.substring_char(0, i).to_owned();
            let tail = s.substring_char(i + 1, n);
            let mut r = split_sep(tail, sep);
            r.insert(0, head);
            proof {
                lemma_split_sep_at_first(s@, sep, i as int);
                assert(r.deep_view() =~~= split_sep_spec(s@, sep));
            }
            r
        },
    }
}

/// One decimal digit as a character.
pub open spec fn digit_char(d: nat) -> char {
    if d == 0 {
        '0'
    } else if d == 1 {
        '1'
    } else if d == 2 {
        '2'
    } else if d == 3 {
        '3'
    } else if d == 4 {
        '4'
    } else if d == 5 {
        '5'
    } else if d == 6 {
        '6'
    } else if d == 7 {
        '7'
    } else if d == 8 {
        '8'
    } else {
        '9'
    }
}

/// The decimal digits of `n`, most significant first, no leading zeros.
pub open spec fn dec_digits(n: nat) -> Seq<char>
    decreases n,
{
    if n < 10 {
        seq![digit_char(n)]
    } else {
        dec_digits(n / 10).push(digit_char(n % 10))
    }
}

fn digit_str(d: u64) -> (s: &'static str)
    requires
        d < 10,
    ensures
        s@ =~= seq![digit_char(d as nat)],
{
    let s: &'static str = if d == 0 {
        "0"
    } else if d == 1 {
        "1"
    } else if d == 2 {
        "2"
    } else if d == 3 {
        "3"
    } else if d == 4 {
        "4"
    } else if d == 5 {
        "5"
    } else if d == 6 {
        "6"
    } else if d == 7 {
        "7"
    } else if d == 8 {
        "8"
    } else {
        "9"
    };
    proof {
        reveal_strlit("0");
        reveal_strlit("1");
        reveal_strlit("2");
        reveal_strlit("3");
        reveal_strlit("4");
        reveal_strlit("5");
        reveal_strlit("6");
        reveal_strlit("7");
        reveal_strlit("8");
        reveal_strlit("9");
    }
    s
}

/// Format `n` in decimal.
pub fn u64_to_dec(n: u64) -> (s: String)
    ensures
        s@ == dec_digits(n as nat),
    decreases n,
{
    if n < 10 {
        digit_str(n).to_owned()
    } else {
        let mut s = u64_to_dec(n / 10);
        let d = digit_str(n % 10);
        s.append(d);
        proof {
            assert(s@ =~= dec_digits((n / 10) as nat).push(digit_char((n % 10) as nat)));
        }
        s
    }
}

/// Decimal strings never come out empty.
pub proof fn lemma_dec_digits_nonempty(n: nat)
    ensures
        dec_digits(n).len() >= 1,
    decreases n,
{
    if n >= 10 {
        lemma_dec_digits_nonempty(n / 10);
    }
}

/// Distinct numbers have distinct decimal strings.
pub proof fn lemma_dec_digits_injective(a: nat, b: nat)
    requires
        dec_digits(a) == dec_digits(b),
    ensures
        a == b,
    decreases a,
{
    if a < 10 && b < 10 {
        assert(dec_digits(a)[0] == digit_char(a));
        assert(dec_digits(b)[0] == digit_char(b));
    } else if a < 10 {
        lemma_dec_digits_nonempty(b / 10);
        assert(dec_digits(b).len() >= 2);
    } else if b < 10 {
        lemma_dec_digits_nonempty(a / 10);
        assert(dec_digits(a).len() >= 2);
    } else {
        let da = dec_digits(a / 10);
        let db = dec_digits(b / 10);
        assert(da.push(digit_char(a % 10)).len() == da.len() + 1);
        assert(da.push(digit_char(a % 10))[da.len() as int] == digit_char(a % 10));
        assert(db.push(digit_char(b % 10))[db.len() as int] == digit_char(b % 10));
        assert(da.len() == db.len());
        assert(digit_char(a % 10) == digit_char(b % 10));
        assert(a % 10 == b % 10);
        assert forall|i: int| 0 <= i < da.len() implies da[i] == db[i] by {
            assert(da.push(digit_char(a % 10))[i] == da[i]);
            assert(db.push(digit_char(b % 10))[i] == db[i]);
        }
        assert(da =~= db);
        lemma_dec_digits_injective(a / 10, b / 10);
        assert(a == 10 * (a / 10) + a % 10);
        assert(b == 10 * (b / 10) + b % 10);
    }
}

} // verus!
