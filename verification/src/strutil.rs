//! Small verified helpers over strings and characters: equality,
//! ASCII case-insensitive comparison, and decimal formatting.

use vstd::prelude::*;

verus! {

/// Exact string equality, stated over the character views.
pub fn str_eq(a: &str, b: &str) -> (r: bool)
    ensures
        r == (a@ == b@),
{
    let x = a.to_owned();
    let y = b.to_owned();
    x == y
}

/// Two characters match ignoring ASCII letter case: either equal, or
/// one is the upper-case ASCII letter of the other (code points 65
/// through 90 are 'A' through 'Z'; the lower-case letter sits 32
/// higher).
pub open spec fn ascii_case_eq_char(c: char, d: char) -> bool {
    c == d || (65 <= c as int <= 90 && d as int == c as int + 32) || (65 <= d as int <= 90
        && c as int == d as int + 32)
}

/// Character sequences match ignoring ASCII letter case.
pub open spec fn ascii_case_eq(a: Seq<char>, b: Seq<char>) -> bool {
    a.len() == b.len() && forall|i: int| 0 <= i < a.len() ==> ascii_case_eq_char(a[i], b[i])
}

fn char_case_eq(c: char, d: char) -> (r: bool)
    ensures
        r == ascii_case_eq_char(c, d),
{
    let cu = c as u32;
    let du = d as u32;
    c == d || (65 <= cu && cu <= 90 && du == cu + 32) || (65 <= du && du <= 90 && cu == du + 32)
}

/// ASCII case-insensitive string comparison.
pub fn str_eq_ignore_ascii_case(a: &str, b: &str) -> (r: bool)
    ensures
        r == ascii_case_eq(a@, b@),
{
    let na = a.unicode_len();
    let nb = b.unicode_len();
    if na != nb {
        return false;
    }
    let mut i: usize = 0;
    while i < na
        invariant
            na == a@.len(),
            na == b@.len(),
            i <= na,
            forall|j: int| 0 <= j < i ==> ascii_case_eq_char(a@[j], b@[j]),
        decreases na - i,
    {
        if !char_case_eq(a.get_char(i), b.get_char(i)) {
            return false;
        }
        i = i + 1;
    }
    true
}

/// The decimal digit character for a value below ten.
pub open spec fn digit_char(d: int) -> char {
    if d == 0 {
        '0'
    } else if d == 1 {
        '1'
    } else if d == 2 {
        '2'
    } else if d == 3 {
        '3'
    } else if d == 4 {
        '4'
    } else if d == 5 {
        '5'
    } else if d == 6 {
        '6'
    } else if d == 7 {
        '7'
    } else if d == 8 {
        '8'
    } else {
        '9'
    }
}

/// The decimal digit string of a natural number, most significant
/// digit first, with no leading zeros.
pub open spec fn decimal_of(n: int) -> Seq<char>
    decreases n,
{
    if n < 10 {
        seq![digit_char(n)]
    } else {
        decimal_of(n / 10).push(digit_char(n % 10))
    }
}

fn digit_str(d: u64) -> (r: &'static str)
    requires
        d < 10,
    ensures
        r@ == seq![digit_char(d as int)],
{
    proof {
        reveal_strlit("0");
        reveal_strlit("1");
        reveal_strlit("2");
        reveal_strlit("3");
        reveal_strlit("4");
        reveal_strlit("5");
        reveal_strlit("6");
        reveal_strlit("7");
        reveal_strlit("8");
        reveal_strlit("9");
    }
    if d == 0 {
        "0"
    } else if d == 1 {
        "1"
    } else if d == 2 {
        "2"
    } else if d == 3 {
        "3"
    } else if d == 4 {
        "4"
    } else if d == 5 {
        "5"
    } else if d == 6 {
        "6"
    } else if d == 7 {
        "7"
    } else if d == 8 {
        "8"
    } else {
        "9"
    }
}

/// Render a number in decimal.
pub fn u64_to_string(n: u64) -> (s: String)
    ensures
        s@ == decimal_of(n as int),
    decreases n,
{
    if n < 10 {
        digit_str(n).to_owned()
    } else {
        let mut s = u64_to_string(n / 10);
        s.append(digit_str(n % 10));
        s
    }
}

/// ASCII whitespace, as far as trimming is concerned.
pub open spec fn is_space(c: char) -> bool {
    c == ' ' || c == '\t' || c == '\n' || c == '\r'
}

/// A string with its leading whitespace removed.
pub open spec fn trim_front(s: Seq<char>) -> Seq<char>
    decreases s.len(),
{
    if s.len() > 0 && is_space(s[0]) {
        trim_front(s.drop_first())
    } else {
        s
    }
}

/// A string with its trailing whitespace removed.
pub open spec fn trim_back(s: Seq<char>) -> Seq<char>
    decreases s.len(),
{
    if s.len() > 0 && is_space(s.last()) {
        trim_back(s.drop_last())
    } else {
        s
    }
}

/// A string with whitespace removed from both ends.
pub open spec fn trimmed(s: Seq<char>) -> Seq<char> {
    trim_back(trim_front(s))
}

proof fn lemma_trim_front_subrange(s: Seq<char>, k: int)
    requires
        0 <= k <= s.len(),
        forall|j: int| 0 <= j < k ==> is_space(s[j]),
        k < s.len() ==> !is_space(s[k]),
    ensures
        trim_front(s) == s.subrange(k, s.len() as int),
    decreases k,
{
    if k == 0 {
        assert(s.subrange(0, s.len() as int) =~= s);
    } else {
        lemma_trim_front_subrange(s.drop_first(), k - 1);
        assert(s.drop_first().subrange(k - 1, s.drop_first().len() as int) =~= s.subrange(
            k,
            s.len() as int,
        ));
    }
}

proof fn lemma_trim_back_subrange(s: Seq<char>, m: int)
    requires
        0 <= m <= s.len(),
        forall|j: int| m <= j < s.len() ==> is_space(s[j]),
        m > 0 ==> !is_space(s[m - 1]),
    ensures
        trim_back(s) == s.subrange(0, m),
    decreases s.len() - m,
{
    if m == s.len() {
        if s.len() > 0 && is_space(s.last()) {
            lemma_trim_back_subrange(s.drop_last(), m - 1);
            assert(false);
        } else {
            assert(s.subrange(0, m) =~= s);
        }
    } else {
        assert(is_space(s.last()));
        lemma_trim_back_subrange(s.drop_last(), m);
        assert(s.drop_last().subrange(0, m) =~= s.subrange(0, m));
    }
}

fn is_space_char(c: char) -> (r: bool)
    ensures
        r == is_space(c),
{
    c == ' ' || c == '\t' || c == '\n' || c == '\r'
}

/// Remove whitespace from both ends of a string.
pub fn trim_str(s: &str) -> (r: String)
    ensures
        r@ == trimmed(s@),
{
    let n = s.unicode_len();
    let mut a: usize = 0;
    while a < n && is_space_char(s.get_char(a))
        invariant
            n == s@.len(),
            a <= n,
            forall|j: int| 0 <= j < a ==> is_space(s@[j]),
        decreases n - a,
    {
        a = a + 1;
    }
    proof {
        lemma_trim_front_subrange(s@, a as int);
    }
    if a == n {
        proof {
            assert(s@.subrange(a as int, n as int) =~= Seq::<char>::empty());
        }
        return String::new();
    }
    let mut b: usize = n;
    while b > a && is_space_char(s.get_char(b - 1))
        invariant
            n == s@.len(),
            a <= b <= n,
            forall|j: int| b <= j < n ==> is_space(s@[j]),
        decreases b,
    {
        b = b - 1;
    }
    proof {
        let t = s@.subrange(a as int, n as int);
        lemma_trim_back_subrange(t, b - a);
        assert(t.subrange(0, b - a) =~= s@.subrange(a as int, b as int));
    }
    let part = s.substring_char(a, b);
    part.to_owned()
}

/// The pieces of a string cut at every plus sign; cutting a string
/// with no plus sign gives that string alone, and each plus sign adds
/// one piece.
pub open spec fn split_plus(s: Seq<char>) -> Seq<Seq<char>>
    decreases s.len(),
{
    if s.len() == 0 {
        seq![Seq::<char>::empty()]
    } else if s[0] == '+' {
        seq![Seq::<char>::empty()] + split_plus(s.drop_first())
    } else {
        let rest = split_plus(s.drop_first());
        seq![seq![s[0]] + rest[0]] + rest.drop_first()
    }
}

proof fn lemma_split_plus_len(s: Seq<char>)
    ensures
        split_plus(s).len() >= 1,
    decreases s.len(),
{
    if s.len() > 0 {
        lemma_split_plus_len(s.drop_first());
    }
}

proof fn lemma_split_plus_at(s: Seq<char>, p: int)
    requires
        0 <= p <= s.len(),
        forall|j: int| 0 <= j < p ==> s[j] != '+',
        p < s.len() ==> s[p] == '+',
    ensures
        p == s.len() ==> split_plus(s) == seq![s],
        p < s.len() ==> split_plus(s) == seq![s.subrange(0, p)] + split_plus(
            s.subrange(p + 1, s.len() as int),
        ),
    decreases s.len(),
{
    if s.len() == 0 {
        assert(s =~= Seq::<char>::empty());
    } else if p == 0 {
        lemma_split_plus_len(s.drop_first());
        assert(s.drop_first() =~= s.subrange(1, s.len() as int));
        assert(s.subrange(0, 0) =~= Seq::<char>::empty());
    } else {
        lemma_split_plus_len(s.drop_first());
        lemma_split_plus_at(s.drop_first(), p - 1);
        let rest = split_plus(s.drop_first());
        if p == s.len() {
            assert(rest == seq![s.drop_first()]);
            assert(seq![s[0]] + rest[0] =~= s);
            assert(split_plus(s) =~= seq![s]);
        } else {
            assert(rest == seq![s.drop_first().subrange(0, p - 1)] + split_plus(
                s.drop_first().subrange(p, s.len() - 1),
            ));
            assert(seq![s[0]] + rest[0] =~= s.subrange(0, p));
            assert(s.drop_first().subrange(p, s.len() - 1) =~= s.subrange(p + 1, s.len() as int));
            assert(split_plus(s) =~= seq![s.subrange(0, p)] + split_plus(
                s.subrange(p + 1, s.len() as int),
            ));
        }
    }
}

/// Cut a string into its pieces at every plus sign.
pub fn split_plus_str(s: &str) -> (r: Vec<String>)
    ensures
        r@.map_values(|p: String| p@) == split_plus(s@),
    decreases s@.len(),
{
    let n = s.unicode_len();
    let mut p: usize = 0;
    while p < n && s.get_char(p) != '+'
        invariant
            n == s@.len(),
            p <= n,
            forall|j: int| 0 <= j < p ==> s@[j] != '+',
        decreases n - p,
    {
        p = p + 1;
    }
    proof {
        lemma_split_plus_at(s@, p as int);
    }
    if p == n {
        let mut r: Vec<String> = Vec::new();
        r.push(s.to_owned());
        proof {
            assert(r@.map_values(|q: String| q@) =~= seq![s@]);
        }
        r
    } else {
        let head = s.substring_char(0, p);
        let tail = s.substring_char(p + 1, n);
        let mut r: Vec<String> = Vec::new();
        r.push(head.to_owned());
        let mut rest = split_plus_str(tail);
        r.append(&mut rest);
        proof {
            assert(r@.map_values(|q: String| q@) =~= seq![s@.subrange(0, p as int)] + split_plus(
                s@.subrange(p + 1 as int, n as int),
            ));
        }
        r
    }
}

} // verus!
