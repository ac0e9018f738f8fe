//! Text utilities behind every widget's rendering: template-token
//! replacement, decimal formatting and parsing, whitespace trimming.
//! Everything is specified over `Seq<char>` views.

use vstd::prelude::*;
use vstd::string::*;

verus! {

/// `s` with every occurrence of `pat` replaced by `rep`, scanning left to
/// right without overlapping matches (the semantics of `str::replace`).
pub open spec fn replaced(s: Seq<char>, pat: Seq<char>, rep: Seq<char>) -> Seq<char>
    decreases s.len(),
{
    if pat.len() == 0 || s.len() < pat.len() {
        s
    } else if s.subrange(0, pat.len() as int) == pat {
        rep + replaced(s.skip(pat.len() as int), pat, rep)
    } else {
        seq![s[0]] + replaced(s.skip(1), pat, rep)
    }
}

/// Whether `pat` occurs at position `i` of `s`.
fn matches_at(s: &str, i: usize, pat: &str) -> (b: bool)
    requires
        i + pat@.len() <= s@.len(),
    ensures
        b == (s@.subrange(i as int, i + pat@.len()) == pat@),
{
    let n = s.unicode_len();
    let p = pat.unicode_len();
    let mut j: usize = 0;
    while j < p
        invariant
            n == s@.len(),
            p == pat@.len(),
            i + p <= s@.len(),
            j <= p,
            forall|k: int| 0 <= k < j ==> s@[i + k] == pat@[k],
        decreases p - j,
    {
        if s.get_char(i + j) != pat.get_char(j) {
            proof {
                assert(s@.subrange(i as int, i + pat@.len())[j as int] == s@[i + j]);
            }
            return false;
        }
        j += 1;
    }
    proof {
        assert(s@.subrange(i as int, i + pat@.len()) =~= pat@);
    }
    true
}

/// `str::replace` with a verified contract: the result is exactly `s` with
/// each occurrence of `pat` replaced by `rep`.
pub fn replace(s: &str, pat: &str, rep: &str) -> (r: String)
    requires
        pat@.len() >= 1,
    ensures
        r@ == replaced(s@, pat@, rep@),
{
    let n = s.unicode_len();
    let p = pat.unicode_len();
    let mut r = String::new();
    let mut i: usize = 0;
    proof {
        assert(s@.skip(0) =~= s@);
        assert(Seq::<char>::empty() + replaced(s@, pat@, rep@) =~= replaced(s@, pat@, rep@));
    }
    while i < n
        invariant
            n == s@.len(),
            p == pat@.len(),
            1 <= p,
            i <= n,
            replaced(s@, pat@, rep@) == r@ + replaced(s@.skip(i as int), pat@, rep@),
        decreases n - i,
    {
        let ghost t = s@.skip(i as int);
        if p <= n - i && matches_at(s, i, pat) {
            proof {
                assert(t.subrange(0, p as int) =~= s@.subrange(i as int, i + p));
                assert(t.skip(p as int) =~= s@.skip(i + p));
                assert(replaced(t, pat@, rep@) == rep@ + replaced(s@.skip(i + p), pat@, rep@));
                assert(r@ + (rep@ + replaced(s@.skip(i + p), pat@, rep@)) =~= (r@ + rep@)
                    + replaced(s@.skip(i + p), pat@, rep@));
            }
            r.append(rep);
            i += p;
        } else {
            proof {
                if p <= n - i {
                    assert(t.subrange(0, p as int) =~= s@.subrange(i as int, i + p));
                    assert(replaced(t, pat@, rep@) == seq![t[0]] + replaced(t.skip(1), pat@, rep@));
                } else {
                    assert(t =~= seq![t[0]] + t.skip(1));
                    assert(t.skip(1).len() < p);
                    assert(replaced(t, pat@, rep@) == seq![t[0]] + replaced(t.skip(1), pat@, rep@));
                }
                assert(t.skip(1) =~= s@.skip(i + 1));
                assert(seq![t[0]] =~= s@.subrange(i as int, i + 1));
                assert(r@ + (seq![t[0]] + replaced(s@.skip(i + 1), pat@, rep@)) =~= (r@
                    + s@.subrange(i as int, i + 1)) + replaced(s@.skip(i + 1), pat@, rep@));
            }
            let c = s.substring_char(i, i + 1);
            r.append(c);
            i += 1;
        }
    }
    proof {
        assert(s@.skip(n as int) =~= Seq::<char>::empty());
        assert(r@ + Seq::<char>::empty() =~= r@);
    }
    r
}

/// The character for one decimal digit.
pub open spec fn digit_char(d: int) -> char {
    if d == 0 {
        '0'
    } else if d == 1 {
        '1'
    } else if d == 2 {
        '2'
    } else if d == 3 {
        '3'
    } else if d == 4 {
        '4'
    } else if d == 5 {
        '5'
    } else if d == 6 {
        '6'
    } else if d == 7 {
        '7'
    } else if d == 8 {
        '8'
    } else {
        '9'
    }
}

/// Decimal rendering of a non-negative integer, most significant digit first.
pub open spec fn dec_str(n: int) -> Seq<char>
    decreases n,
{
    if n < 10 {
        seq![digit_char(n)]
    } else {
        dec_str(n / 10) + seq![digit_char(n % 10)]
    }
}

fn digit_str(d: u64) -> (r: &'static str)
    requires
        d < 10,
    ensures
        r@ == seq![digit_char(d as int)],
{
    match d {
        0 => {
            proof {
                reveal_strlit("0");
                assert("0"@ =~= seq![digit_char(0)]);
            }
            "0"
        },
        1 => {
            proof {
                reveal_strlit("1");
                assert("1"@ =~= seq![digit_char(1)]);
            }
            "1"
        },
        2 => {
            proof {
                reveal_strlit("2");
                assert("2"@ =~= seq![digit_char(2)]);
            }
            "2"
        },
        3 => {
            proof {
                reveal_strlit("3");
                assert("3"@ =~= seq![digit_char(3)]);
            }
            "3"
        },
        4 => {
            proof {
                reveal_strlit("4");
                assert("4"@ =~= seq![digit_char(4)]);
            }
            "4"
        },
        5 => {
            proof {
                reveal_strlit("5");
                assert("5"@ =~= seq![digit_char(5)]);
            }
            "5"
        },
        6 => {
            proof {
                reveal_strlit("6");
                assert("6"@ =~= seq![digit_char(6)]);
            }
            "6"
        },
        7 => {
            proof {
                reveal_strlit("7");
                assert("7"@ =~= seq![digit_char(7)]);
            }
            "7"
        },
        8 => {
            proof {
                reveal_strlit("8");
                assert("8"@ =~= seq![digit_char(8)]);
            }
            "8"
        },
        _ => {
            proof {
                reveal_strlit("9");
                assert("9"@ =~= seq![digit_char(9)]);
            }
            "9"
        },
    }
}

fn push_dec(n: u64, out: &mut String)
    ensures
        final(out)@ == old(out)@ + dec_str(n as int),
    decreases n,
{
    if n >= 10 {
        push_dec(n / 10, out);
        let d = digit_str(n % 10);
        let ghost mid = out@;
        out.append(d);
        proof {
            assert(mid + seq![digit_char(n as int % 10)] =~= old(out)@ + (dec_str(n as int / 10)
                + seq![digit_char(n as int % 10)]));
        }
    } else {
        out.append(digit_str(n));
    }
}

/// Decimal rendering of `n`, e.g. 42 becomes "42".
pub fn u64_to_string(n: u64) -> (r: String)
    ensures
        r@ == dec_str(n as int),
{
    let mut r = String::new();
    push_dec(n, &mut r);
    proof {
        assert(Seq::<char>::empty() + dec_str(n as int) =~= dec_str(n as int));
    }
    r
}

/// Decimal rendering of a possibly negative integer.
pub open spec fn int_str(n: int) -> Seq<char> {
    if n < 0 {
        seq!['-'] + dec_str(-n)
    } else {
        dec_str(n)
    }
}

/// Signed decimal rendering, e.g. -5 becomes "-5".
pub fn i64_to_string(n: i64) -> (r: String)
    ensures
        r@ == int_str(n as int),
{
    if n < 0 {
        let mag: u64 = (-(n as i128)) as u64;
        proof {
            reveal_strlit("-");
            assert("-"@ =~= seq!['-']);
        }
        let mut r = String::from_str("-");
        push_dec(mag, &mut r);
        proof {
            assert(seq!['-'] + dec_str(mag as int) =~= int_str(n as int));
        }
        r
    } else {
        u64_to_string(n as u64)
    }
}

/// Rendering of a tenths value with one decimal place, e.g. 421 becomes
/// "42.1".
pub open spec fn fixed1_str(t: int) -> Seq<char> {
    dec_str(t / 10) + seq!['.'] + seq![digit_char(t % 10)]
}

/// Renders `t` tenths with one decimal place.
pub fn tenths_to_string(t: u64) -> (r: String)
    ensures
        r@ == fixed1_str(t as int),
{
    let mut r = u64_to_string(t / 10);
    proof {
        reveal_strlit(".");
        assert("."@ =~= seq!['.']);
    }
    let ghost whole = r@;
    r.append(".");
    let ghost with_dot = r@;
    r.append(digit_str(t % 10));
    proof {
        assert((whole + seq!['.']) + seq![digit_char(t as int % 10)] =~= fixed1_str(t as int));
    }
    r
}

/// Whether `c` is a decimal digit.
pub open spec fn is_digit(c: char) -> bool {
    48 <= c as int && c as int <= 57
}

/// The value of a digit character.
pub open spec fn digit_val(c: char) -> int {
    c as int - 48
}

/// Whether every character of `s` is a decimal digit.
pub open spec fn all_digits(s: Seq<char>) -> bool {
    forall|i: int| 0 <= i < s.len() ==> is_digit(s[i])
}

/// The numeric value of a digit string, most significant digit first.
pub open spec fn dec_val(s: Seq<char>) -> int
    decreases s.len(),
{
    if s.len() == 0 {
        0
    } else {
        dec_val(s.drop_last()) * 10 + digit_val(s.last())
    }
}

proof fn lemma_dec_val_nonneg(s: Seq<char>)
    requires
        all_digits(s),
    ensures
        dec_val(s) >= 0,
    decreases s.len(),
{
    if s.len() > 0 {
        assert(all_digits(s.drop_last())) by {
            assert(forall|i: int|
                0 <= i < s.drop_last().len() ==> s.drop_last()[i] == s[i] && is_digit(s[i]));
        }
        lemma_dec_val_nonneg(s.drop_last());
    }
}

proof fn lemma_dec_val_prefix(s: Seq<char>, j: int)
    requires
        all_digits(s),
        0 <= j <= s.len(),
    ensures
        dec_val(s) >= dec_val(s.subrange(0, j)),
    decreases s.len() - j,
{
    if j < s.len() {
        let a = s.subrange(0, j);
        let b = s.subrange(0, j + 1);
        assert(b.drop_last() =~= a);
        assert(all_digits(a)) by {
            assert(forall|i: int| 0 <= i < a.len() ==> a[i] == s[i] && is_digit(s[i]));
        }
        lemma_dec_val_nonneg(a);
        assert(dec_val(b) == dec_val(a) * 10 + digit_val(s[j]));
        assert(dec_val(a) * 10 >= dec_val(a)) by (nonlinear_arith)
            requires
                dec_val(a) >= 0,
        ;
        lemma_dec_val_prefix(s, j + 1);
    } else {
        assert(s.subrange(0, j) =~= s);
    }
}

/// The value a string denotes, when it is a digit string whose value fits
/// in a `u64`.
pub open spec fn spec_parse_u64(s: Seq<char>) -> Option<u64> {
    if s.len() >= 1 && all_digits(s) && dec_val(s) <= u64::MAX {
        Some(dec_val(s) as u64)
    } else {
        None
    }
}

/// Parses a decimal integer; `None` exactly when `s` is empty, holds a
/// non-digit, or denotes a value above `u64::MAX`.
pub fn parse_u64(s: &str) -> (r: Option<u64>)
    ensures
        r == spec_parse_u64(s@),
{
    let n = s.unicode_len();
    if n == 0 {
        return None;
    }
    let mut acc: u64 = 0;
    let mut i: usize = 0;
    while i < n
        invariant
            n == s@.len(),
            1 <= n,
            i <= n,
            all_digits(s@.subrange(0, i as int)),
            acc as int == dec_val(s@.subrange(0, i as int)),
        decreases n - i,
    {
        let c = s.get_char(i);
        let code = c as u32;
        if code < 48 || code > 57 {
            proof {
                assert(!is_digit(s@[i as int]));
            }
            return None;
        }
        let d: u64 = (code - 48) as u64;
        let wide: u128 = (acc as u128) * 10 + (d as u128);
        let ghost pre = s@.subrange(0, i as int);
        let ghost ext = s@.subrange(0, i + 1);
        proof {
            assert(ext.drop_last() =~= pre);
            assert(ext.last() == s@[i as int]);
            assert(dec_val(ext) == (acc as int) * 10 + digit_val(s@[i as int]));
            assert(all_digits(ext)) by {
                assert(forall|k: int| 0 <= k < i ==> ext[k] == pre[k] && is_digit(pre[k]));
            }
        }
        if wide > u64::MAX as u128 {
            proof {
                assert(s@.subrange(0, n as int) =~= s@);
                if all_digits(s@) {
                    lemma_dec_val_prefix(s@, i + 1);
                    assert(dec_val(s@) >= dec_val(ext));
                }
            }
            return None;
        }
        acc = wide as u64;
        i += 1;
    }
    proof {
        assert(s@.subrange(0, n as int) =~= s@);
    }
    Some(acc)
}

/// Whether `c` is ASCII whitespace.
pub open spec fn is_space(c: char) -> bool {
    c == ' ' || c == '\n' || c == '\t' || c == '\r'
}

/// `s` without leading whitespace.
pub open spec fn trim_front(s: Seq<char>) -> Seq<char>
    decreases s.len(),
{
    if s.len() > 0 && is_space(s[0]) {
        trim_front(s.skip(1))
    } else {
        s
    }
}

/// `s` without trailing whitespace.
pub open spec fn trim_back(s: Seq<char>) -> Seq<char>
    decreases s.len(),
{
    if s.len() > 0 && is_space(s.last()) {
        trim_back(s.drop_last())
    } else {
        s
    }
}

/// `s` without leading or trailing whitespace.
pub open spec fn trimmed(s: Seq<char>) -> Seq<char> {
    trim_back(trim_front(s))
}

fn space_at(s: &str, i: usize) -> (b: bool)
    requires
        i < s@.len(),
    ensures
        b == is_space(s@[i as int]),
{
    let c = s.get_char(i);
    c == ' ' || c == '\n' || c == '\t' || c == '\r'
}

/// `str::trim` restricted to ASCII whitespace, with an exact contract.
pub fn trim(s: &str) -> (r: String)
    ensures
        r@ == trimmed(s@),
{
    let n = s.unicode_len();
    let mut i: usize = 0;
    proof {
        assert(s@.skip(0) =~= s@);
    }
    while i < n && space_at(s, i)
        invariant
            n == s@.len(),
            i <= n,
            trim_front(s@) == trim_front(s@.skip(i as int)),
        decreases n - i,
    {
        proof {
            assert(s@.skip(i as int).skip(1) =~= s@.skip(i + 1));
        }
        i += 1;
    }
    proof {
        if i < n {
            assert(trim_front(s@.skip(i as int)) == s@.skip(i as int));
        } else {
            assert(s@.skip(i as int) =~= Seq::<char>::empty());
        }
    }
    let mut j: usize = n;
    while j > i && space_at(s, j - 1)
        invariant
            n == s@.len(),
            i <= j <= n,
            trim_front(s@) == s@.skip(i as int),
            s@.skip(i as int) =~= s@.subrange(i as int, n as int),
            trim_back(s@.subrange(i as int, n as int)) == trim_back(
                s@.subrange(i as int, j as int),
            ),
        decreases j,
    {
        proof {
            let cur = s@.subrange(i as int, j as int);
            assert(cur.last() == s@[j - 1]);
            assert(cur.drop_last() =~= s@.subrange(i as int, j - 1));
        }
        j -= 1;
    }
    proof {
        let cur = s@.subrange(i as int, j as int);
        if j > i {
            assert(cur.last() == s@[j - 1]);
            assert(trim_back(cur) == cur);
        } else {
            assert(cur =~= Seq::<char>::empty());
        }
    }
    let piece = s.substring_char(i, j);
    String::from_str(piece)
}

/// Whether `pat` occurs anywhere in `s`.
pub open spec fn str_contains(s: Seq<char>, pat: Seq<char>) -> bool {
    exists|i: int| 0 <= i && i + pat.len() <= s.len() && #[trigger] s.subrange(i, i + pat.len())
        == pat
}

/// Substring search with an exact contract.
pub fn contains(s: &str, pat: &str) -> (r: bool)
    requires
        pat@.len() >= 1,
    ensures
        r == str_contains(s@, pat@),
{
    let n = s.unicode_len();
    let p = pat.unicode_len();
    if p > n {
        return false;
    }
    let mut i: usize = 0;
    while i <= n - p
        invariant
            n == s@.len(),
            p == pat@.len(),
            1 <= p <= n,
            i <= n - p + 1,
            forall|k: int| 0 <= k < i ==> #[trigger] s@.subrange(k, k + pat@.len()) != pat@,
        decreases n - i,
    {
        if matches_at(s, i, pat) {
            return true;
        }
        i += 1;
    }
    false
}

/// String equality with an exact contract.
pub fn str_eq(a: &str, b: &str) -> (r: bool)
    ensures
        r == (a@ == b@),
{
    let n = a.unicode_len();
    let m = b.unicode_len();
    if n != m {
        return false;
    }
    let mut i: usize = 0;
    while i < n
        invariant
            n == a@.len(),
            n == b@.len(),
            i <= n,
            forall|k: int| 0 <= k < i ==> a@[k] == b@[k],
        decreases n - i,
    {
        if a.get_char(i) != b.get_char(i) {
            return false;
        }
        i += 1;
    }
    proof {
        assert(a@ =~= b@);
    }
    true
}

} // verus!
