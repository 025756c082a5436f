use vstd::prelude::*;

verus! {

/// Whether `c` is a decimal digit.
pub open spec fn is_digit(c: char) -> bool {
    '0' <= c && c <= '9'
}

/// The numeric value of a decimal digit.
pub open spec fn digit_val(c: char) -> int {
    c as int - '0' as int
}

/// Whether every character of `s` is a decimal digit.
pub open spec fn all_digits(s: Seq<char>) -> bool {
    forall|i: int| 0 <= i < s.len() ==> is_digit(#[trigger] s[i])
}

/// The value of a sequence of decimal digits, most significant first.
pub open spec fn digits_val(s: Seq<char>) -> int
    decreases s.len(),
{
    if s.len() == 0 {
        0
    } else {
        digits_val(s.drop_last()) * 10 + digit_val(s.last())
    }
}

/// The digits of an integer lexeme: the lexeme with a single leading sign removed.
pub open spec fn int_lexeme_digits(s: Seq<char>) -> Seq<char> {
    if s.len() > 0 && (s[0] == '-' || s[0] == '+') {
        s.subrange(1, s.len() as int)
    } else {
        s
    }
}

/// The signed value denoted by an integer lexeme.
pub open spec fn int_lexeme_val(s: Seq<char>) -> int {
    if s.len() > 0 && s[0] == '-' {
        -digits_val(int_lexeme_digits(s))
    } else {
        digits_val(int_lexeme_digits(s))
    }
}

/// Whether `s` is a well-formed signed 64-bit integer lexeme: an optional
/// sign, then at least one digit, denoting a value in the `i64` range.
pub open spec fn is_i64_lexeme(s: Seq<char>) -> bool {
    &&& int_lexeme_digits(s).len() > 0
    &&& all_digits(int_lexeme_digits(s))
    &&& i64::MIN <= int_lexeme_val(s) <= i64::MAX
}

/// Whether `s` is a well-formed unsigned machine-word lexeme: an optional
/// plus sign, then at least one digit, denoting a value in the `usize` range.
pub open spec fn is_usize_lexeme(s: Seq<char>) -> bool {
    &&& s.len() > 0 && s[0] != '-'
    &&& int_lexeme_digits(s).len() > 0
    &&& all_digits(int_lexeme_digits(s))
    &&& int_lexeme_val(s) <= usize::MAX
}

/// The decimal rendering of a non-negative integer, most significant digit first.
pub open spec fn dec_digits(v: int) -> Seq<char>
    decreases v,
{
    if v < 10 {
        seq![digit_char(v)]
    } else {
        dec_digits(v / 10).push(digit_char(v % 10))
    }
}

/// The decimal digit character for a value between 0 and 9.
pub open spec fn digit_char(v: int) -> char {
    if v == 0 {
        '0'
    } else if v == 1 {
        '1'
    } else if v == 2 {
        '2'
    } else if v == 3 {
        '3'
    } else if v == 4 {
        '4'
    } else if v == 5 {
        '5'
    } else if v == 6 {
        '6'
    } else if v == 7 {
        '7'
    } else if v == 8 {
        '8'
    } else {
        '9'
    }
}

/// The decimal rendering of an integer, with a leading minus sign if negative.
pub open spec fn dec_int(v: int) -> Seq<char> {
    if v < 0 {
        seq!['-'] + dec_digits(-v)
    } else {
        dec_digits(v)
    }
}

/// A sequence of digits denotes a non-negative value.
pub proof fn lemma_digits_val_nonneg(s: Seq<char>)
    requires
        all_digits(s),
    ensures
        digits_val(s) >= 0,
    decreases s.len(),
{
    if s.len() > 0 {
        assert(all_digits(s.drop_last())) by {
            assert forall|i: int| 0 <= i < s.drop_last().len() implies is_digit(
                #[trigger] s.drop_last()[i],
            ) by {
                assert(s.drop_last()[i] == s[i]);
            }
        }
        lemma_digits_val_nonneg(s.drop_last());
        assert(is_digit(s.last()));
    }
}

/// Every prefix of a digit sequence denotes at most the whole sequence's value.
pub proof fn lemma_digits_val_prefix(s: Seq<char>, j: int)
    requires
        all_digits(s),
        0 <= j <= s.len(),
    ensures
        digits_val(s.subrange(0, j)) <= digits_val(s),
    decreases s.len() - j,
{
    if j < s.len() {
        lemma_digits_val_prefix(s, j + 1);
        let p = s.subrange(0, j);
        let q = s.subrange(0, j + 1);
        assert(q.drop_last() =~= p);
        assert(q.last() == s[j]);
        assert(all_digits(p)) by {
            assert forall|i: int| 0 <= i < p.len() implies is_digit(#[trigger] p[i]) by {
                assert(p[i] == s[i]);
            }
        }
        lemma_digits_val_nonneg(p);
        assert(digits_val(q) == digits_val(p) * 10 + digit_val(s[j]));
        assert(digits_val(p) * 10 >= digits_val(p));
        assert(is_digit(s[j]));
    } else {
        assert(s.subrange(0, j) =~= s);
    }
}

/// The one-character string for a decimal digit value.
fn digit_str(d: u64) -> (r: &'static str)
    requires
        d < 10,
    ensures
        r@ == seq![digit_char(d as int)],
{
    if d == 0 {
        proof {
            reveal_strlit("0");
            assert("0"@ =~= seq![digit_char(0)]);
        }
        "0"
    } else if d == 1 {
        proof {
            reveal_strlit("1");
            assert("1"@ =~= seq![digit_char(1)]);
        }
        "1"
    } else if d == 2 {
        proof {
            reveal_strlit("2");
            assert("2"@ =~= seq![digit_char(2)]);
        }
        "2"
    } else if d == 3 {
        proof {
            reveal_strlit("3");
            assert("3"@ =~= seq![digit_char(3)]);
        }
        "3"
    } else if d == 4 {
        proof {
            reveal_strlit("4");
            assert("4"@ =~= seq![digit_char(4)]);
        }
        "4"
    } else if d == 5 {
        proof {
            reveal_strlit("5");
            assert("5"@ =~= seq![digit_char(5)]);
        }
        "5"
    } else if d == 6 {
        proof {
            reveal_strlit("6");
            assert("6"@ =~= seq![digit_char(6)]);
        }
        "6"
    } else if d == 7 {
        proof {
            reveal_strlit("7");
            assert("7"@ =~= seq![digit_char(7)]);
        }
        "7"
    } else if d == 8 {
        proof {
            reveal_strlit("8");
            assert("8"@ =~= seq![digit_char(8)]);
        }
        "8"
    } else {
        proof {
            reveal_strlit("9");
            assert("9"@ =~= seq![digit_char(9)]);
        }
        "9"
    }
}

/// Appends the decimal rendering of `v` to `s`.
pub fn push_dec_u64(s: &mut String, v: u64)
    ensures
        final(s)@ == old(s)@ + dec_digits(v as int),
    decreases v,
{
    if v < 10 {
        s.append(digit_str(v));
    } else {
        push_dec_u64(s, v / 10);
        s.append(digit_str(v % 10));
        proof {
            assert((old(s)@ + dec_digits(v as int / 10)) + seq![digit_char(v as int % 10)]
                =~= old(s)@ + dec_digits(v as int));
        }
    }
}

/// Appends the decimal rendering of `v` to `s`, minus sign included.
pub fn push_dec_i64(s: &mut String, v: i64)
    ensures
        final(s)@ == old(s)@ + dec_int(v as int),
{
    if v < 0 {
        s.append("-");
        let m: u64 = if v == i64::MIN {
            9223372036854775808
        } else {
            (-v) as u64
        };
        push_dec_u64(s, m);
        proof {
            reveal_strlit("-");
            assert("-"@ =~= seq!['-']);
            assert((old(s)@ + "-"@) + dec_digits(m as int) =~= old(s)@ + dec_int(v as int));
        }
    } else {
        push_dec_u64(s, v as u64);
    }
}

/// Appends the decimal rendering of `v` to `s`.
pub fn push_dec_usize(s: &mut String, v: usize)
    ensures
        final(s)@ == old(s)@ + dec_digits(v as int),
{
    push_dec_u64(s, v as u64);
}

/// Reads a decimal digit character as its numeric value.
fn digit_of_char(c: char) -> (r: Option<u64>)
    ensures
        r == (if is_digit(c) {
            Some(digit_val(c) as u64)
        } else {
            None::<u64>
        }),
{
    if c >= '0' && c <= '9' {
        Some((c as u32 - '0' as u32) as u64)
    } else {
        None
    }
}

/// Reads a signed 64-bit integer from its decimal lexeme, exactly on the
/// well-formed lexemes: an optional sign, then at least one digit, denoting
/// a value in the `i64` range.
pub fn parse_i64(s: &str) -> (r: Option<i64>)
    ensures
        r == (if is_i64_lexeme(s@) {
            Some(int_lexeme_val(s@) as i64)
        } else {
            None::<i64>
        }),
{
    let n = s.unicode_len();
    if n == 0 {
        return None;
    }
    let c0 = s.get_char(0);
    let neg = c0 == '-';
    let has_sign = c0 == '-' || c0 == '+';
    let start: usize = if has_sign {
        1
    } else {
        0
    };
    let ghost digits = int_lexeme_digits(s@);
    proof {
        assert(digits =~= s@.subrange(start as int, n as int));
    }
    if start == n {
        return None;
    }
    let bound: u64 = if neg {
        9223372036854775808
    } else {
        9223372036854775807
    };
    let mut acc: u64 = 0;
    let mut i: usize = start;
    while i < n
        invariant
            start <= i <= n,
            n == s@.len(),
            start == (if s@.len() > 0 && (s@[0] == '-' || s@[0] == '+') {
                1int
            } else {
                0int
            }),
            digits == int_lexeme_digits(s@),
            digits =~= s@.subrange(start as int, n as int),
            neg == (s@.len() > 0 && s@[0] == '-'),
            bound == (if neg {
                9223372036854775808u64
            } else {
                9223372036854775807u64
            }),
            all_digits(s@.subrange(start as int, i as int)),
            acc == digits_val(s@.subrange(start as int, i as int)),
            acc <= bound,
        decreases n - i,
    {
        let c = s.get_char(i);
        let ghost pre = s@.subrange(start as int, i as int);
        let ghost post = s@.subrange(start as int, i + 1 as int);
        proof {
            assert(post.drop_last() =~= pre);
            assert(post.last() == s@[i as int]);
        }
        let d = match digit_of_char(c) {
            Some(d) => d,
            None => {
                proof {
                    assert(digits[i - start] == s@[i as int]);
                    assert(!all_digits(digits));
                }
                return None;
            },
        };
        if acc > (bound - d) / 10 {
            proof {
                assert(acc * 10 + d > bound) by (nonlinear_arith)
                    requires
                        acc > (bound - d) / 10,
                        d <= 9,
                        bound >= d,
                ;
                assert(digits_val(post) == acc * 10 + d);
                if is_i64_lexeme(s@) {
                    assert(post =~= digits.subrange(0, i + 1 - start));
                    lemma_digits_val_prefix(digits, i + 1 - start);
                    assert(digits_val(digits) > bound);
                    assert(false);
                }
            }
            return None;
        }
        proof {
            assert(acc * 10 + d <= bound) by (nonlinear_arith)
                requires
                    acc <= (bound - d) / 10,
                    d <= 9,
                    bound >= d,
            ;
        }
        acc = acc * 10 + d;
        i = i + 1;
    }
    proof {
        assert(s@.subrange(start as int, n as int) =~= digits);
        assert(acc == digits_val(digits));
        assert(digits.len() > 0);
        assert(is_i64_lexeme(s@));
    }
    if neg {
        if acc == 9223372036854775808 {
            Some(i64::MIN)
        } else {
            Some(-(acc as i64))
        }
    } else {
        Some(acc as i64)
    }
}

/// Reads an unsigned machine-word integer from its decimal lexeme, exactly
/// on the well-formed lexemes: an optional plus sign, then at least one
/// digit, denoting a value in the `usize` range.
pub fn parse_usize(s: &str) -> (r: Option<usize>)
    ensures
        r == (if is_usize_lexeme(s@) {
            Some(int_lexeme_val(s@) as usize)
        } else {
            None::<usize>
        }),
{
    let n = s.unicode_len();
    if n == 0 {
        return None;
    }
    let c0 = s.get_char(0);
    if c0 == '-' {
        return None;
    }
    let start: usize = if c0 == '+' {
        1
    } else {
        0
    };
    let ghost digits = int_lexeme_digits(s@);
    proof {
        assert(digits =~= s@.subrange(start as int, n as int));
    }
    if start == n {
        return None;
    }
    let bound: u64 = usize::MAX as u64;
    let mut acc: u64 = 0;
    let mut i: usize = start;
    while i < n
        invariant
            start <= i <= n,
            n == s@.len(),
            s@.len() > 0 && s@[0] != '-',
            start == (if s@[0] == '+' {
                1int
            } else {
                0int
            }),
            digits == int_lexeme_digits(s@),
            digits =~= s@.subrange(start as int, n as int),
            bound == usize::MAX as u64,
            all_digits(s@.subrange(start as int, i as int)),
            acc == digits_val(s@.subrange(start as int, i as int)),
            acc <= bound,
        decreases n - i,
    {
        let c = s.get_char(i);
        let ghost pre = s@.subrange(start as int, i as int);
        let ghost post = s@.subrange(start as int, i + 1 as int);
        proof {
            assert(post.drop_last() =~= pre);
            assert(post.last() == s@[i as int]);
        }
        let d = match digit_of_char(c) {
            Some(d) => d,
            None => {
                proof {
                    assert(digits[i - start] == s@[i as int]);
                    assert(!all_digits(digits));
                }
                return None;
            },
        };
        if acc > (bound - d) / 10 {
            proof {
                assert(acc * 10 + d > bound) by (nonlinear_arith)
                    requires
                        acc > (bound - d) / 10,
                        d <= 9,
                        bound >= d,
                ;
                assert(digits_val(post) == acc * 10 + d);
                if is_usize_lexeme(s@) {
                    assert(post =~= digits.subrange(0, i + 1 - start));
                    lemma_digits_val_prefix(digits, i + 1 - start);
                    assert(digits_val(digits) > bound);
                    assert(false);
                }
            }
            return None;
        }
        proof {
            assert(acc * 10 + d <= bound) by (nonlinear_arith)
                requires
                    acc <= (bound - d) / 10,
                    d <= 9,
                    bound >= d,
            ;
        }
        acc = acc * 10 + d;
        i = i + 1;
    }
    proof {
        assert(s@.subrange(start as int, n as int) =~= digits);
        assert(acc == digits_val(digits));
        assert(digits.len() > 0);
        assert(is_usize_lexeme(s@));
    }
    Some(acc as usize)
}

} // verus!

