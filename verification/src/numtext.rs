use vstd::prelude::*;
use vstd::string::StrSliceExecFns;

verus! {

pub open spec fn is_digit(c: char) -> bool {
    48 <= c as int && c as int <= 57
}

pub open spec fn digit_val(c: char) -> int {
    c as int - 48
}

/// The first position at or after `i` that does not hold a digit (or the end).
pub open spec fn digit_run_end(s: Seq<char>, i: int) -> int
    decreases s.len() - i,
{
    if i < 0 || i >= s.len() || !is_digit(s[i]) {
        i
    } else {
        digit_run_end(s, i + 1)
    }
}

pub proof fn lemma_digit_run_end(s: Seq<char>, i: int)
    requires
        0 <= i <= s.len(),
    ensures
        i <= digit_run_end(s, i) <= s.len(),
        forall|k: int| i <= k < digit_run_end(s, i) ==> is_digit(s[k]),
        digit_run_end(s, i) < s.len() ==> !is_digit(s[digit_run_end(s, i)]),
    decreases s.len() - i,
{
    if i < s.len() && is_digit(s[i]) {
        lemma_digit_run_end(s, i + 1);
    }
}

pub proof fn lemma_digit_run_end_all(s: Seq<char>, i: int)
    requires
        0 <= i <= s.len(),
        forall|k: int| i <= k < s.len() ==> is_digit(s[k]),
    ensures
        digit_run_end(s, i) == s.len(),
    decreases s.len() - i,
{
    if i < s.len() {
        lemma_digit_run_end_all(s, i + 1);
    }
}

/// JSON number grammar: an optional minus, an integer part without leading
/// zeros, an optional fraction, an optional exponent.
pub open spec fn is_json_number(s: Seq<char>) -> bool {
    let b: int = if s.len() > 0 && s[0] == '-' {
        1
    } else {
        0
    };
    let ie = digit_run_end(s, b);
    &&& s.len() > b
    &&& ie > b
    &&& (s[b] == '0' ==> ie == b + 1)
    &&& frac_exp_ok(s, ie)
}

/// The tail of a JSON number after its integer part: optional fraction, then
/// optional exponent.
pub open spec fn frac_exp_ok(s: Seq<char>, i: int) -> bool {
    if i == s.len() {
        true
    } else if s[i] == '.' {
        let fe = digit_run_end(s, i + 1);
        fe > i + 1 && exp_ok(s, fe)
    } else {
        exp_ok(s, i)
    }
}

/// The tail of a JSON number after its fraction: an optional exponent.
pub open spec fn exp_ok(s: Seq<char>, i: int) -> bool {
    if i == s.len() {
        true
    } else if s[i] == 'e' || s[i] == 'E' {
        let j: int = if i + 1 < s.len() && (s[i + 1] == '+' || s[i + 1] == '-') {
            i + 2
        } else {
            i + 1
        };
        j < s.len() && digit_run_end(s, j) == s.len()
    } else {
        false
    }
}

/// A JSON number that is a plain integer: an optional minus and digits only,
/// no leading zeros.
pub open spec fn is_int_text(s: Seq<char>) -> bool {
    let b: int = if s.len() > 0 && s[0] == '-' {
        1
    } else {
        0
    };
    &&& s.len() > b
    &&& digit_run_end(s, b) == s.len()
    &&& (s[b] == '0' ==> s.len() == b + 1)
}

/// The value of a digit string, most significant digit first.
pub open spec fn digits_value(s: Seq<char>) -> int
    decreases s.len(),
{
    if s.len() == 0 {
        0
    } else {
        digits_value(s.drop_last()) * 10 + digit_val(s.last())
    }
}

/// The integer a plain-integer text denotes.
pub open spec fn int_text_value(s: Seq<char>) -> int {
    if s.len() > 0 && s[0] == '-' {
        -digits_value(s.skip(1))
    } else {
        digits_value(s)
    }
}

pub open spec fn pow10(n: nat) -> int
    decreases n,
{
    if n == 0 {
        1
    } else {
        10 * pow10((n - 1) as nat)
    }
}

pub proof fn lemma_digits_value_bound(s: Seq<char>)
    requires
        forall|k: int| 0 <= k < s.len() ==> is_digit(s[k]),
    ensures
        0 <= digits_value(s) < pow10(s.len()),
    decreases s.len(),
{
    if s.len() > 0 {
        lemma_digits_value_bound(s.drop_last());
    }
}

pub proof fn lemma_digits_value_lower(s: Seq<char>)
    requires
        s.len() > 0,
        forall|k: int| 0 <= k < s.len() ==> is_digit(s[k]),
        s[0] != '0',
    ensures
        digits_value(s) >= pow10((s.len() - 1) as nat),
    decreases s.len(),
{
    if s.len() == 1 {
        assert(s.last() == s[0]);
        assert(digit_val(s[0]) >= 1);
        assert(digits_value(s) == digits_value(s.drop_last()) * 10 + digit_val(s.last()));
        assert(s.drop_last().len() == 0);
        assert(digits_value(s) >= 1);
        assert(pow10(0) == 1);
    } else {
        let t = s.drop_last();
        assert(t[0] == s[0]);
        assert(forall|k: int| 0 <= k < t.len() ==> is_digit(t[k]));
        lemma_digits_value_lower(t);
        assert(digits_value(s) == digits_value(t) * 10 + digit_val(s.last()));
        assert(is_digit(s.last()));
        assert(digits_value(t) >= pow10((t.len() - 1) as nat));
        assert(pow10((s.len() - 1) as nat) == 10 * pow10((s.len() - 2) as nat));
        assert((t.len() - 1) as nat == (s.len() - 2) as nat);
    }
}

/// The decimal text of a natural number.
pub open spec fn dec_nat(n: nat) -> Seq<char>
    decreases n,
{
    if n < 10 {
        seq![digit_char(n)]
    } else {
        dec_nat(n / 10).push(digit_char(n % 10))
    }
}

pub open spec fn digit_char(d: nat) -> char {
    if d == 0 {
        '0'
    } else if d == 1 {
        '1'
    } else if d == 2 {
        '2'
    } else if d == 3 {
        '3'
    } else if d == 4 {
        '4'
    } else if d == 5 {
        '5'
    } else if d == 6 {
        '6'
    } else if d == 7 {
        '7'
    } else if d == 8 {
        '8'
    } else {
        '9'
    }
}

/// For a decimal digit, `digit_char` and `digit_val` are inverse.
pub proof fn lemma_digit_char(d: nat)
    requires
        d < 10,
    ensures
        is_digit(digit_char(d)),
        digit_val(digit_char(d)) == d,
{
    assert('0' as int == 48 && '1' as int == 49 && '2' as int == 50 && '3' as int == 51
        && '4' as int == 52 && '5' as int == 53 && '6' as int == 54 && '7' as int == 55
        && '8' as int == 56 && '9' as int == 57);
}

/// The decimal text of an integer, with a leading minus when negative.
pub open spec fn dec_int(v: int) -> Seq<char> {
    if v < 0 {
        seq!['-'] + dec_nat((-v) as nat)
    } else {
        dec_nat(v as nat)
    }
}

pub proof fn lemma_dec_nat(n: nat)
    ensures
        dec_nat(n).len() >= 1,
        forall|k: int| 0 <= k < dec_nat(n).len() ==> is_digit(dec_nat(n)[k]),
        digits_value(dec_nat(n)) == n,
        n >= 1 ==> dec_nat(n)[0] != '0',
        n < 10 ==> dec_nat(n).len() == 1,
    decreases n,
{
    if n < 10 {
        lemma_digit_char(n);
        let s = seq![digit_char(n)];
        assert(dec_nat(n) == s);
        assert(s.last() == s[0]);
        assert(s.drop_last() =~= Seq::<char>::empty());
        assert(digits_value(s) == digits_value(s.drop_last()) * 10 + digit_val(s.last()));
        assert(digits_value(s) == n);
    } else {
        lemma_dec_nat(n / 10);
        lemma_digit_char(n % 10);
        let t = dec_nat(n / 10);
        let c = digit_char(n % 10);
        assert(t.push(c).drop_last() =~= t);
        assert(t.push(c).last() == c);
        assert(t.push(c)[0] == t[0]);
        assert(digits_value(t.push(c)) == digits_value(t) * 10 + digit_val(c));
        assert(forall|k: int|
            0 <= k < t.push(c).len() ==> is_digit(#[trigger] t.push(c)[k]));
    }
}

/// Printing an integer and reading the text back is the identity.
pub proof fn lemma_dec_int_roundtrip(v: int)
    ensures
        is_int_text(dec_int(v)),
        is_json_number(dec_int(v)),
        int_text_value(dec_int(v)) == v,
{
    if v < 0 {
        let m = (-v) as nat;
        lemma_dec_nat(m);
        let s = seq!['-'] + dec_nat(m);
        assert(s[0] == '-');
        assert(!is_digit('-')) by {
            assert('-' as int == 45);
        }
        assert(s.skip(1) =~= dec_nat(m));
        assert(forall|k: int| 1 <= k < s.len() ==> s[k] == dec_nat(m)[k - 1] && is_digit(s[k]));
        lemma_digit_run_end_all(s, 1);
        assert(s[1] == dec_nat(m)[0]);
        if m >= 1 {
            assert(s[1] != '0');
        } else {
            assert(m == 0);
            assert(dec_nat(m).len() == 1);
            assert(s.len() == 2);
        }
        assert(frac_exp_ok(s, s.len() as int));
    } else {
        let m = v as nat;
        lemma_dec_nat(m);
        let s = dec_nat(m);
        assert(is_digit(s[0]));
        assert(s[0] != '-') by {
            assert('-' as int == 45);
        }
        lemma_digit_run_end_all(s, 0);
        if m >= 1 {
            assert(s[0] != '0');
        } else {
            assert(s.len() == 1);
        }
        assert(frac_exp_ok(s, s.len() as int));
    }
}

/// Scans the digit run of `s` that starts at `i`.
pub fn digit_run_end_x(s: &str, n: usize, i: usize) -> (r: usize)
    requires
        n == s@.len(),
        i <= n,
    ensures
        r == digit_run_end(s@, i as int),
        i <= r <= n,
    decreases n - i,
{
    proof {
        lemma_digit_run_end(s@, i as int);
    }
    if i == n {
        return i;
    }
    let c = s.get_char(i);
    let u = c as u32;
    if 48 <= u && u <= 57 {
        digit_run_end_x(s, n, i + 1)
    } else {
        i
    }
}

/// Decides the JSON number grammar for a text.
pub fn is_json_number_x(s: &str) -> (r: bool)
    ensures
        r == is_json_number(s@),
{
    let n = s.unicode_len();
    let b: usize = if n > 0 && s.get_char(0) == '-' {
        1
    } else {
        0
    };
    if b >= n {
        return false;
    }
    let ie = digit_run_end_x(s, n, b);
    if ie == b {
        return false;
    }
    if s.get_char(b) == '0' && ie != b + 1 {
        return false;
    }
    let mut i = ie;
    if i < n && s.get_char(i) == '.' {
        let fe = digit_run_end_x(s, n, i + 1);
        if fe == i + 1 {
            return false;
        }
        i = fe;
        assert(frac_exp_ok(s@, ie as int) == exp_ok(s@, i as int));
    } else {
        assert(i < n ==> s@[ie as int] != '.');
        assert(frac_exp_ok(s@, ie as int) == exp_ok(s@, i as int));
    }
    if i == n {
        return true;
    }
    let c = s.get_char(i);
    if c != 'e' && c != 'E' {
        return false;
    }
    let mut j = i + 1;
    if j < n {
        let d = s.get_char(j);
        if d == '+' || d == '-' {
            j = j + 1;
        }
    }
    if j >= n {
        return false;
    }
    let de = digit_run_end_x(s, n, j);
    de == n
}

/// Reads a plain-integer text as an `i64`; rejects texts that are not plain
/// integers and values outside the `i64` range.
pub fn parse_int_text_x(s: &str) -> (r: Option<i64>)
    ensures
        r is Some <==> is_int_text(s@) && i64::MIN <= int_text_value(s@) <= i64::MAX,
        r matches Some(v) ==> v as int == int_text_value(s@),
{
    let n = s.unicode_len();
    let neg = n > 0 && s.get_char(0) == '-';
    let b: usize = if neg {
        1
    } else {
        0
    };
    if b >= n {
        return None;
    }
    let e = digit_run_end_x(s, n, b);
    if e != n {
        proof {
            lemma_digit_run_end(s@, b as int);
        }
        return None;
    }
    if s.get_char(b) == '0' && n != b + 1 {
        return None;
    }
    proof {
        lemma_digit_run_end(s@, b as int);
        if neg {
            assert(s@.skip(1) =~= s@.subrange(b as int, n as int));
        } else {
            assert(s@ =~= s@.subrange(b as int, n as int));
        }
    }
    let ghost digits = s@.subrange(b as int, n as int);
    if n - b > 19 {
        proof {
            reveal_with_fuel(pow10, 25);
            assert(pow10(19) == 10000000000000000000);
            assert(digits[0] == s@[b as int]);
            assert(digits[0] != '0');
            lemma_digits_value_lower(digits);
            lemma_pow10_mono(19, (digits.len() - 1) as nat);
            assert(digits_value(digits) >= pow10(19));
        }
        return None;
    }
    let mut acc: u64 = 0;
    let mut j = b;
    while j < n
        invariant
            b <= j <= n,
            n == s@.len(),
            n - b <= 19,
            digits == s@.subrange(b as int, n as int),
            forall|k: int| b <= k < n ==> is_digit(s@[k]),
            acc == digits_value(s@.subrange(b as int, j as int)),
            acc < pow10((j - b) as nat),
        decreases n - j,
    {
        let c = s.get_char(j);
        let u = c as u32;
        assert(48 <= u && u <= 57);
        let d = (u - 48) as u64;
        proof {
            reveal_with_fuel(pow10, 25);
            assert(pow10(19) == 10000000000000000000);
            lemma_pow10_mono((j + 1 - b) as nat, 19);
            assert(s@.subrange(b as int, (j + 1) as int).drop_last() =~= s@.subrange(
                b as int,
                j as int,
            ));
            assert(s@.subrange(b as int, (j + 1) as int).last() == s@[j as int]);
        }
        acc = acc * 10 + d;
        j = j + 1;
    }
    assert(digits_value(digits) == acc);
    proof {
        lemma_digits_value_bound(digits);
    }
    if neg {
        if acc > 9223372036854775808u64 {
            None
        } else if acc == 9223372036854775808u64 {
            Some(i64::MIN)
        } else {
            Some(-(acc as i64))
        }
    } else {
        if acc > 9223372036854775807u64 {
            None
        } else {
            Some(acc as i64)
        }
    }
}

pub proof fn lemma_pow10_pos(a: nat)
    ensures
        pow10(a) >= 1,
    decreases a,
{
    if a > 0 {
        lemma_pow10_pos((a - 1) as nat);
    }
}

pub proof fn lemma_pow10_mono(a: nat, b: nat)
    requires
        a <= b,
    ensures
        1 <= pow10(a) <= pow10(b),
    decreases b,
{
    lemma_pow10_pos(a);
    if a < b {
        lemma_pow10_mono(a, (b - 1) as nat);
    }
}

/// Relies on the standard decimal `Display` of `i64`: the text is the decimal
/// digits of the value, with a leading `-` when negative.
#[verifier::external_body]
pub fn format_i64(v: i64) -> (r: String)
    ensures
        r@ == dec_int(v as int),
{
    format!("{}", v)
}

} // verus!
