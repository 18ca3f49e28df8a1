//! Decimal rendering and parsing of integers, written against spec-level
//! definitions so that round trips can be proved.

use vstd::prelude::*;

verus! {

/// The character for one decimal digit value.
pub open spec fn spec_digit_char(d: int) -> char {
    if d == 0 {
        '0'
    } else if d == 1 {
        '1'
    } else if d == 2 {
        '2'
    } else if d == 3 {
        '3'
    } else if d == 4 {
        '4'
    } else if d == 5 {
        '5'
    } else if d == 6 {
        '6'
    } else if d == 7 {
        '7'
    } else if d == 8 {
        '8'
    } else {
        '9'
    }
}

/// Canonical decimal rendering of a natural number: no sign, no leading
/// zeros (except for the single digit of zero itself).
pub open spec fn spec_udec(n: nat) -> Seq<char>
    decreases n,
{
    if n < 10 {
        seq![spec_digit_char(n as int)]
    } else {
        spec_udec((n / 10) as nat) + seq![spec_digit_char((n % 10) as int)]
    }
}

/// Canonical decimal rendering of an integer: a `-` sign for negative
/// values, then the digits of the magnitude.
pub open spec fn spec_sdec(n: int) -> Seq<char> {
    if n < 0 {
        seq!['-'] + spec_udec((-n) as nat)
    } else {
        spec_udec(n as nat)
    }
}

/// Digit predicate over code points, so that spec and exec agree.
pub open spec fn spec_is_digit(c: char) -> bool {
    48 <= c as int && c as int <= 57
}

pub open spec fn spec_digit_val(c: char) -> int {
    c as int - 48
}

pub open spec fn spec_all_digits(s: Seq<char>) -> bool {
    forall|i: int| 0 <= i < s.len() ==> spec_is_digit(#[trigger] s[i])
}

/// The number denoted by a run of digit characters, most significant first.
pub open spec fn spec_digits_val(s: Seq<char>) -> int
    decreases s.len(),
{
    if s.len() == 0 {
        0
    } else {
        spec_digits_val(s.drop_last()) * 10 + spec_digit_val(s.last())
    }
}

/// Meaning of a decimal string in unsigned syntax: an optional `+` sign,
/// then one or more digits. `None` when the string is not of that shape.
pub open spec fn spec_parse_uint(s: Seq<char>) -> Option<int> {
    let digits = if s.len() > 0 && s[0] == '+' {
        s.subrange(1, s.len() as int)
    } else {
        s
    };
    if digits.len() > 0 && spec_all_digits(digits) {
        Some(spec_digits_val(digits))
    } else {
        None
    }
}

/// Meaning of a decimal string in signed syntax: an optional `+` or `-`
/// sign, then one or more digits.
pub open spec fn spec_parse_sint(s: Seq<char>) -> Option<int> {
    if s.len() > 0 && s[0] == '-' {
        let digits = s.subrange(1, s.len() as int);
        if digits.len() > 0 && spec_all_digits(digits) {
            Some(-spec_digits_val(digits))
        } else {
            None
        }
    } else {
        spec_parse_uint(s)
    }
}

/// Why a string failed to parse as an integer: not integer syntax at all,
/// or a value outside the range of the requested width.
#[derive(Clone, Copy, Debug, PartialEq, Eq, Structural)]
pub enum IntParseError {
    Invalid,
    OutOfRange,
}

fn digit_str(d: u8) -> (r: &'static str)
    requires
        d < 10,
    ensures
        r@ == seq![spec_digit_char(d as int)],
{
    if d == 0 {
        proof {
            reveal_strlit("0");
            assert("0"@ =~= seq![spec_digit_char(0int)]);
        }
        "0"
    } else if d == 1 {
        proof {
            reveal_strlit("1");
            assert("1"@ =~= seq![spec_digit_char(1int)]);
        }
        "1"
    } else if d == 2 {
        proof {
            reveal_strlit("2");
            assert("2"@ =~= seq![spec_digit_char(2int)]);
        }
        "2"
    } else if d == 3 {
        proof {
            reveal_strlit("3");
            assert("3"@ =~= seq![spec_digit_char(3int)]);
        }
        "3"
    } else if d == 4 {
        proof {
            reveal_strlit("4");
            assert("4"@ =~= seq![spec_digit_char(4int)]);
        }
        "4"
    } else if d == 5 {
        proof {
            reveal_strlit("5");
            assert("5"@ =~= seq![spec_digit_char(5int)]);
        }
        "5"
    } else if d == 6 {
        proof {
            reveal_strlit("6");
            assert("6"@ =~= seq![spec_digit_char(6int)]);
        }
        "6"
    } else if d == 7 {
        proof {
            reveal_strlit("7");
            assert("7"@ =~= seq![spec_digit_char(7int)]);
        }
        "7"
    } else if d == 8 {
        proof {
            reveal_strlit("8");
            assert("8"@ =~= seq![spec_digit_char(8int)]);
        }
        "8"
    } else {
        proof {
            reveal_strlit("9");
            assert("9"@ =~= seq![spec_digit_char(9int)]);
        }
        "9"
    }
}

/// Renders an unsigned value in decimal.
pub fn u128_to_dec(n: u128) -> (r: String)
    ensures
        r@ == spec_udec(n as nat),
    decreases n,
{
    let d: u8 = (n % 10) as u8;
    if n < 10 {
        let r = digit_str(d).to_owned();
        proof {
            assert(r@ =~= spec_udec(n as nat));
        }
        r
    } else {
        proof {
            assert(n / 10 < n) by (nonlinear_arith)
                requires
                    n >= 10,
            ;
        }
        let mut s = u128_to_dec(n / 10);
        s.append(digit_str(d));
        proof {
            assert(s@ =~= spec_udec(n as nat));
        }
        s
    }
}

/// Renders a signed value in decimal, with a leading `-` when negative.
pub fn i128_to_dec(n: i128) -> (r: String)
    ensures
        r@ == spec_sdec(n as int),
{
    if n >= 0 {
        u128_to_dec(n as u128)
    } else {
        let mag: u128 = ((-(n + 1)) as u128) + 1;
        proof {
            assert(mag == -(n as int));
        }
        let mut s = String::new();
        s.append("-");
        s.append(u128_to_dec(mag).as_str());
        proof {
            reveal_strlit("-");
            assert(s@ =~= spec_sdec(n as int));
        }
        s
    }
}

/// Accumulates the digit run `s[start..]` into a `u128`.
pub fn parse_u128_digits(s: &str, start: usize) -> (r: Result<u128, IntParseError>)
    requires
        start <= s@.len(),
    ensures
        ({
            let digits = s@.subrange(start as int, s@.len() as int);
            match r {
                Ok(v) => digits.len() > 0 && spec_all_digits(digits) && spec_digits_val(digits)
                    == v as int,
                Err(e) => if e == IntParseError::Invalid {
                    !(digits.len() > 0 && spec_all_digits(digits))
                } else {
                    digits.len() > 0 && spec_all_digits(digits) && spec_digits_val(digits)
                        > u128::MAX
                },
            }
        }),
{
    let n = s.unicode_len();
    let mut i = start;
    let mut val: u128 = 0;
    let mut overflow = false;
    if i >= n {
        return Err(IntParseError::Invalid);
    }
    while i < n
        invariant
            start <= i <= n,
            n == s@.len(),
            spec_all_digits(s@.subrange(start as int, i as int)),
            !overflow ==> val as int == spec_digits_val(s@.subrange(start as int, i as int)),
            overflow ==> spec_digits_val(s@.subrange(start as int, i as int)) > u128::MAX,
        decreases n - i,
    {
        let c = s.get_char(i);
        let cv = c as u32;
        if cv < 48 || cv > 57 {
            proof {
                let digits = s@.subrange(start as int, n as int);
                assert(digits[i - start] == s@[i as int]);
                assert(!spec_is_digit(s@[i as int]));
            }
            return Err(IntParseError::Invalid);
        }
        let d: u128 = (cv - 48) as u128;
        proof {
            let pre = s@.subrange(start as int, i as int);
            let post = s@.subrange(start as int, i + 1 as int);
            assert(post.drop_last() =~= pre);
            assert(post.last() == s@[i as int]);
            assert(spec_digit_val(s@[i as int]) == d as int);
            assert(spec_digits_val(post) == spec_digits_val(pre) * 10 + d);
        }
        if overflow {
            proof {
                let pre = s@.subrange(start as int, i as int);
                assert(spec_digits_val(pre) * 10 > u128::MAX) by (nonlinear_arith)
                    requires
                        spec_digits_val(pre) > u128::MAX,
                ;
            }
        } else {
            let next = match val.checked_mul(10) {
                Some(v10) => v10.checked_add(d),
                None => None,
            };
            match next {
                Some(v2) => {
                    val = v2;
                },
                None => {
                    overflow = true;
                    val = 0;
                },
            }
        }
        i += 1;
    }
    if overflow {
        Err(IntParseError::OutOfRange)
    } else {
        Ok(val)
    }
}

/// Parses unsigned decimal syntax (an optional `+` sign, then digits) into
/// a `u128`, reporting out-of-range values separately from malformed input.
pub fn parse_u128(s: &str) -> (r: Result<u128, IntParseError>)
    ensures
        ({
            match r {
                Ok(v) => spec_parse_uint(s@) == Some(v as int),
                Err(e) => if e == IntParseError::Invalid {
                    spec_parse_uint(s@) is None
                } else {
                    spec_parse_uint(s@) matches Some(w) && w > u128::MAX
                },
            }
        }),
{
    let n = s.unicode_len();
    let start: usize = if n > 0 && s.get_char(0) == '+' {
        1
    } else {
        0
    };
    proof {
        if start == 0 {
            assert(s@.subrange(0, s@.len() as int) =~= s@);
        }
    }
    parse_u128_digits(s, start)
}

/// Parses signed decimal syntax (an optional `+` or `-` sign, then digits)
/// into an `i128`.
pub fn parse_i128(s: &str) -> (r: Result<i128, IntParseError>)
    ensures
        ({
            match r {
                Ok(v) => spec_parse_sint(s@) == Some(v as int),
                Err(e) => if e == IntParseError::Invalid {
                    spec_parse_sint(s@) is None
                } else {
                    spec_parse_sint(s@) matches Some(w) && !(i128::MIN <= w <= i128::MAX)
                },
            }
        }),
{
    let n = s.unicode_len();
    if n > 0 && s.get_char(0) == '-' {
        match parse_u128_digits(s, 1) {
            Ok(mag) => {
                if mag == 0 {
                    Ok(0)
                } else if mag <= 170141183460469231731687303715884105728u128 {
                    let v: i128 = -((mag - 1) as i128) - 1;
                    proof {
                        assert(v as int == -(mag as int));
                    }
                    Ok(v)
                } else {
                    Err(IntParseError::OutOfRange)
                }
            },
            Err(e) => Err(e),
        }
    } else {
        match parse_u128(s) {
            Ok(v) => {
                if v <= 170141183460469231731687303715884105727u128 {
                    Ok(v as i128)
                } else {
                    Err(IntParseError::OutOfRange)
                }
            },
            Err(e) => Err(e),
        }
    }
}

proof fn lemma_digit_char_val(d: int)
    requires
        0 <= d < 10,
    ensures
        spec_is_digit(spec_digit_char(d)),
        spec_digit_val(spec_digit_char(d)) == d,
{
    if d == 0 {
        assert('0' as int == 48);
    } else if d == 1 {
        assert('1' as int == 49);
    } else if d == 2 {
        assert('2' as int == 50);
    } else if d == 3 {
        assert('3' as int == 51);
    } else if d == 4 {
        assert('4' as int == 52);
    } else if d == 5 {
        assert('5' as int == 53);
    } else if d == 6 {
        assert('6' as int == 54);
    } else if d == 7 {
        assert('7' as int == 55);
    } else if d == 8 {
        assert('8' as int == 56);
    } else {
        assert('9' as int == 57);
    }
}

/// The canonical rendering of a natural number is a nonempty digit run that
/// denotes the number itself.
pub proof fn lemma_udec_wf(n: nat)
    ensures
        spec_udec(n).len() >= 1,
        spec_all_digits(spec_udec(n)),
        spec_digits_val(spec_udec(n)) == n,
    decreases n,
{
    if n < 10 {
        lemma_digit_char_val(n as int);
        let s = spec_udec(n);
        assert(s == seq![spec_digit_char(n as int)]);
        assert(s.last() == spec_digit_char(n as int));
        assert(s.drop_last() =~= Seq::<char>::empty());
        assert(spec_digits_val(Seq::<char>::empty()) == 0);
        assert(spec_digits_val(s) == 0 * 10 + spec_digit_val(spec_digit_char(n as int)));
    } else {
        assert(n / 10 < n) by (nonlinear_arith)
            requires
                n >= 10,
        ;
        lemma_udec_wf(n / 10);
        lemma_digit_char_val((n % 10) as int);
        let s = spec_udec(n);
        let pre = spec_udec(n / 10);
        assert(s.drop_last() =~= pre);
        assert(s.last() == spec_digit_char((n % 10) as int));
        assert forall|i: int| 0 <= i < s.len() implies spec_is_digit(#[trigger] s[i]) by {
            if i < pre.len() {
                assert(s[i] == pre[i]);
            }
        }
        assert(spec_digits_val(s) == spec_digits_val(pre) * 10 + (n % 10));
        vstd::arithmetic::div_mod::lemma_fundamental_div_mod(n as int, 10);
    }
}

/// Rendering a natural number and parsing it back yields the same number.
pub proof fn lemma_uint_round_trip(n: nat)
    ensures
        spec_parse_uint(spec_udec(n)) == Some(n as int),
{
    lemma_udec_wf(n);
    let s = spec_udec(n);
    assert(spec_is_digit(s[0]));
    assert('+' as int == 43);
    assert(s[0] != '+');
}

/// Rendering an integer and parsing it back yields the same integer.
pub proof fn lemma_sint_round_trip(n: int)
    ensures
        spec_parse_sint(spec_sdec(n)) == Some(n),
{
    if n >= 0 {
        lemma_uint_round_trip(n as nat);
        let s = spec_sdec(n);
        lemma_udec_wf(n as nat);
        assert(spec_is_digit(s[0]));
        assert('-' as int == 45);
        assert(s[0] != '-');
    } else {
        lemma_udec_wf((-n) as nat);
        let s = spec_sdec(n);
        let digits = s.subrange(1, s.len() as int);
        assert(digits =~= spec_udec((-n) as nat));
        assert(s[0] == '-');
        assert(spec_parse_sint(s) == Some(-spec_digits_val(digits)));
    }
}

} // verus!
