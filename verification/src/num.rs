//! Decimal rendering and parsing of machine integers.
//!
//! Every number that reaches a SQL statement is first parsed with
//! [`parse_i64`] and rendered back with [`i64_to_string`], so the query
//! text only ever holds canonical decimal digits.

use vstd::prelude::*;

verus! {

/// The character for a single decimal digit value.
pub open spec fn digit_char(d: int) -> char {
    if d == 0 {
        '0'
    } else if d == 1 {
        '1'
    } else if d == 2 {
        '2'
    } else if d == 3 {
        '3'
    } else if d == 4 {
        '4'
    } else if d == 5 {
        '5'
    } else if d == 6 {
        '6'
    } else if d == 7 {
        '7'
    } else if d == 8 {
        '8'
    } else {
        '9'
    }
}

/// Decimal digits of a non-negative integer, most significant first.
pub open spec fn dec_digits(n: int) -> Seq<char>
    recommends
        n >= 0,
    decreases n,
{
    if n < 10 {
        seq![digit_char(n)]
    } else {
        dec_digits(n / 10).push(digit_char(n % 10))
    }
}

/// Decimal text of an integer, with a leading `-` when it is negative.
pub open spec fn dec_int(n: int) -> Seq<char> {
    if n >= 0 {
        dec_digits(n)
    } else {
        seq!['-'].add(dec_digits(-n))
    }
}

/// A single decimal digit as a one-character string slice.
fn digit_str(d: u64) -> (r: &'static str)
    requires
        d < 10,
    ensures
        r@ =~= seq![digit_char(d as int)],
{
    let r = if d == 0 {
        "0"
    } else if d == 1 {
        "1"
    } else if d == 2 {
        "2"
    } else if d == 3 {
        "3"
    } else if d == 4 {
        "4"
    } else if d == 5 {
        "5"
    } else if d == 6 {
        "6"
    } else if d == 7 {
        "7"
    } else if d == 8 {
        "8"
    } else {
        "9"
    };
    proof {
        reveal_strlit("0");
        reveal_strlit("1");
        reveal_strlit("2");
        reveal_strlit("3");
        reveal_strlit("4");
        reveal_strlit("5");
        reveal_strlit("6");
        reveal_strlit("7");
        reveal_strlit("8");
        reveal_strlit("9");
    }
    r
}

/// Whether `c` is a decimal digit.
pub open spec fn is_dec_digit(c: char) -> bool {
    48 <= c as int && c as int <= 57
}

/// The numeric value of a decimal digit character.
pub open spec fn digit_val(c: char) -> int {
    c as int - 48
}

/// Whether every character of `s` is a decimal digit.
pub open spec fn all_dec_digits(s: Seq<char>) -> bool {
    forall|i: int| 0 <= i < s.len() ==> is_dec_digit(s[i])
}

/// The value of a sequence of decimal digits, most significant first.
pub open spec fn digits_val(s: Seq<char>) -> int
    decreases s.len(),
{
    if s.len() == 0 {
        0
    } else {
        digits_val(s.drop_last()) * 10 + digit_val(s.last())
    }
}

/// Whether `s` starts with a minus sign.
pub open spec fn is_negative_str(s: Seq<char>) -> bool {
    s.len() > 0 && s[0] == '-'
}

/// The digits of `s`, after an optional leading minus sign.
pub open spec fn unsigned_part(s: Seq<char>) -> Seq<char> {
    if is_negative_str(s) {
        s.skip(1)
    } else {
        s
    }
}

/// Whether `s` is an optional minus sign followed by one or more digits.
pub open spec fn int_str_wellformed(s: Seq<char>) -> bool {
    unsigned_part(s).len() > 0 && all_dec_digits(unsigned_part(s))
}

/// The signed value of a well-formed integer string.
pub open spec fn int_str_val(s: Seq<char>) -> int {
    if is_negative_str(s) {
        -digits_val(unsigned_part(s))
    } else {
        digits_val(unsigned_part(s))
    }
}

/// Whether `s` is an integer string whose value fits in an `i64`.
pub open spec fn valid_i64_string(s: Seq<char>) -> bool {
    int_str_wellformed(s) && i64::MIN <= int_str_val(s) <= i64::MAX
}

/// A digit sequence never has a negative value.
pub proof fn lemma_digits_val_nonneg(s: Seq<char>)
    requires
        all_dec_digits(s),
    ensures
        digits_val(s) >= 0,
    decreases s.len(),
{
    if s.len() > 0 {
        assert(all_dec_digits(s.drop_last()));
        lemma_digits_val_nonneg(s.drop_last());
    }
}

/// Reading further digits never decreases the value.
pub proof fn lemma_digits_val_mono(s: Seq<char>, i: int, j: int)
    requires
        all_dec_digits(s),
        0 <= i <= j <= s.len(),
    ensures
        digits_val(s.take(i)) <= digits_val(s.take(j)),
    decreases j - i,
{
    if i < j {
        lemma_digits_val_mono(s, i, j - 1);
        let p = s.take(j - 1);
        let q = s.take(j);
        assert(q.drop_last() =~= p);
        assert(all_dec_digits(p));
        lemma_digits_val_nonneg(p);
    }
}

/// Parses an optional minus sign followed by decimal digits; returns the
/// value exactly when the text is well formed and fits in an `i64`.
pub fn parse_i64(s: &str) -> (r: Option<i64>)
    ensures
        r is Some <==> valid_i64_string(s@),
        r is Some ==> r->0 as int == int_str_val(s@),
{
    let n = s.unicode_len();
    if n == 0 {
        return None;
    }
    let neg = s.get_char(0) == '-';
    let start: usize = if neg {
        1
    } else {
        0
    };
    if start == n {
        return None;
    }
    let ghost u = unsigned_part(s@);
    proof {
        assert(u =~= s@.skip(start as int));
    }
    let mut acc: i64 = 0;
    let mut i: usize = start;
    while i < n
        invariant
            start <= i <= n,
            n == s@.len(),
            start < n,
            neg == is_negative_str(s@),
            start == if neg { 1int } else { 0int },
            u == unsigned_part(s@),
            u == s@.skip(start as int),
            all_dec_digits(u.take(i - start)),
            acc == -digits_val(u.take(i - start)),
            acc <= 0,
        decreases n - i,
    {
        let c = s.get_char(i);
        let cv = c as u32;
        proof {
            assert(u[i - start] == s@[i as int]);
        }
        if cv < 48 || cv > 57 {
            proof {
                assert(!is_dec_digit(u[i - start]));
            }
            return None;
        }
        let d = (cv - 48) as i64;
        proof {
            assert(u.take(i - start + 1).drop_last() =~= u.take(i - start));
            assert(u.take(i - start + 1).last() == u[i - start]);
        }
        let ghost next_val = digits_val(u.take(i - start + 1));
        proof {
            assert(next_val == -(acc * 10) + d as int);
        }
        let over = if neg {
            acc < -922337203685477580 || (acc == -922337203685477580 && d > 8)
        } else {
            acc < -922337203685477580 || (acc == -922337203685477580 && d > 7)
        };
        if over {
            proof {
                if all_dec_digits(u) {
                    lemma_digits_val_mono(u, i - start + 1, u.len() as int);
                    assert(u.take(u.len() as int) =~= u);
                    if neg {
                        assert(int_str_val(s@) <= -next_val < i64::MIN);
                    } else {
                        assert(int_str_val(s@) >= next_val > i64::MAX);
                    }
                }
            }
            return None;
        }
        acc = acc * 10 - d;
        i += 1;
    }
    proof {
        assert(u.take(i - start) =~= u);
        assert(int_str_wellformed(s@));
    }
    if neg {
        Some(acc)
    } else {
        if acc == i64::MIN {
            return None;
        }
        Some(-acc)
    }
}

/// Renders a non-negative 64-bit value in decimal.
pub fn u64_to_string(n: u64) -> (s: String)
    ensures
        s@ == dec_digits(n as int),
    decreases n,
{
    if n < 10 {
        let s = String::from_str(digit_str(n));
        proof {
            assert(s@ =~= dec_digits(n as int));
        }
        s
    } else {
        let mut s = u64_to_string(n / 10);
        s.append(digit_str(n % 10));
        proof {
            assert(s@ =~= dec_digits(n as int));
        }
        s
    }
}

/// Renders a signed 64-bit value in decimal.
pub fn i64_to_string(n: i64) -> (s: String)
    ensures
        s@ == dec_int(n as int),
{
    if n >= 0 {
        u64_to_string(n as u64)
    } else {
        let m: u64 = (-(n as i128)) as u64;
        assert(m as int == -(n as int));
        let mut s = String::from_str("-");
        s.append(u64_to_string(m).as_str());
        proof {
            reveal_strlit("-");
            assert(s@ =~= dec_int(n as int));
        }
        s
    }
}

/// Renders a non-negative 128-bit value in decimal.
pub fn u128_to_string(n: u128) -> (s: String)
    ensures
        s@ == dec_digits(n as int),
    decreases n,
{
    if n < 10 {
        let s = String::from_str(digit_str(n as u64));
        proof {
            assert(s@ =~= dec_digits(n as int));
        }
        s
    } else {
        let mut s = u128_to_string(n / 10);
        s.append(digit_str((n % 10) as u64));
        proof {
            assert(s@ =~= dec_digits(n as int));
        }
        s
    }
}

/// Renders a signed 128-bit value in decimal.
pub fn i128_to_string(n: i128) -> (s: String)
    ensures
        s@ == dec_int(n as int),
{
    if n >= 0 {
        u128_to_string(n as u128)
    } else {
        let m: u128 = ((-(n + 1)) as u128) + 1;
        assert(m as int == -(n as int));
        let mut s = String::from_str("-");
        s.append(u128_to_string(m).as_str());
        proof {
            reveal_strlit("-");
            assert(s@ =~= dec_int(n as int));
        }
        s
    }
}

/// Every character that `dec_digits` produces is a decimal digit.
pub proof fn lemma_dec_digits_are_digits(n: int)
    requires
        n >= 0,
    ensures
        all_dec_digits(dec_digits(n)),
        dec_digits(n).len() >= 1,
    decreases n,
{
    if n >= 10 {
        lemma_dec_digits_are_digits(n / 10);
    }
}

/// The digits that `dec_digits` renders evaluate back to the rendered value.
pub proof fn lemma_digits_val_of_dec_digits(n: int)
    requires
        n >= 0,
    ensures
        digits_val(dec_digits(n)) == n,
    decreases n,
{
    let s = dec_digits(n);
    if n < 10 {
        assert(s == seq![digit_char(n)]);
        assert(s.len() == 1);
        assert(s.drop_last() =~= Seq::<char>::empty());
        assert(digits_val(Seq::<char>::empty()) == 0);
        assert(s.last() == digit_char(n));
        assert(digit_val(digit_char(n)) == n);
        assert(digits_val(s) == digits_val(s.drop_last()) * 10 + digit_val(s.last()));
    } else {
        lemma_digits_val_of_dec_digits(n / 10);
        assert(s == dec_digits(n / 10).push(digit_char(n % 10)));
        assert(s.len() > 0);
        assert(s.drop_last() =~= dec_digits(n / 10));
        assert(s.last() == digit_char(n % 10));
        assert(digit_val(digit_char(n % 10)) == n % 10);
        assert(digits_val(s) == digits_val(s.drop_last()) * 10 + digit_val(s.last()));
    }
}

/// Rendering a value in the `i64` range and parsing the text back yields
/// the same value: the decimal forms this library writes into SQL are
/// exactly the ones its own validator accepts.
pub proof fn lemma_dec_int_round_trip(n: int)
    requires
        i64::MIN <= n <= i64::MAX,
    ensures
        valid_i64_string(dec_int(n)),
        int_str_val(dec_int(n)) == n,
{
    if n >= 0 {
        lemma_dec_digits_are_digits(n);
        lemma_digits_val_of_dec_digits(n);
        let s = dec_int(n);
        assert(is_dec_digit(s[0]));
        assert(!is_negative_str(s));
        assert(unsigned_part(s) == s);
    } else {
        lemma_dec_digits_are_digits(-n);
        lemma_digits_val_of_dec_digits(-n);
        let s = dec_int(n);
        assert(s[0] == '-');
        assert(unsigned_part(s) =~= dec_digits(-n));
    }
}

} // verus!
