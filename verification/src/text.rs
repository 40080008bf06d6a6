//! Decimal formatting and parsing of the plain values that frames and
//! rate-limit headers carry.

use vstd::prelude::*;

verus! {

/// The character for one decimal digit value.
pub open spec fn digit_char(d: int) -> char {
    if d == 0 {
        '0'
    } else if d == 1 {
        '1'
    } else if d == 2 {
        '2'
    } else if d == 3 {
        '3'
    } else if d == 4 {
        '4'
    } else if d == 5 {
        '5'
    } else if d == 6 {
        '6'
    } else if d == 7 {
        '7'
    } else if d == 8 {
        '8'
    } else {
        '9'
    }
}

/// The decimal rendering of a non-negative integer, without sign or padding.
pub open spec fn dec_string(n: int) -> Seq<char>
    decreases n,
{
    if n < 10 {
        seq![digit_char(n)]
    } else {
        dec_string(n / 10).push(digit_char(n % 10))
    }
}

/// Splitting the last digit off a number splits the last character off its rendering.
proof fn lemma_dec_string_step(m: int, d: int)
    requires
        m > 0,
        0 <= d < 10,
    ensures
        dec_string(m * 10 + d) == dec_string(m).push(digit_char(d)),
{
    assert((m * 10 + d) / 10 == m) by (nonlinear_arith)
        requires
            m > 0,
            0 <= d < 10,
    ;
    assert((m * 10 + d) % 10 == d) by (nonlinear_arith)
        requires
            m > 0,
            0 <= d < 10,
    ;
    assert(m * 10 + d >= 10) by (nonlinear_arith)
        requires
            m > 0,
            0 <= d < 10,
    ;
}

/// A one-character string slice for a digit value.
fn digit_str(d: u64) -> (r: &'static str)
    requires
        d < 10,
    ensures
        r@ == seq![digit_char(d as int)],
{
    proof {
        reveal_strlit("0");
        reveal_strlit("1");
        reveal_strlit("2");
        reveal_strlit("3");
        reveal_strlit("4");
        reveal_strlit("5");
        reveal_strlit("6");
        reveal_strlit("7");
        reveal_strlit("8");
        reveal_strlit("9");
    }
    match d {
        0 => "0",
        1 => "1",
        2 => "2",
        3 => "3",
        4 => "4",
        5 => "5",
        6 => "6",
        7 => "7",
        8 => "8",
        _ => "9",
    }
}

/// Render a number in decimal, as the platform's wire format asks for
/// identifiers and sequence numbers.
pub fn u64_to_dec(n: u64) -> (r: String)
    ensures
        r@ == dec_string(n as int),
{
    let mut rest = n / 10;
    let mut digits: Vec<u64> = Vec::new();
    digits.push(n % 10);
    proof {
        assert(seq![n % 10].drop_last() =~= Seq::<u64>::empty());
        assert(digit_seq(Seq::<u64>::empty()) =~= Seq::<char>::empty());
        assert(digit_seq(seq![n % 10]) =~= seq![digit_char((n % 10) as int)]);
        if rest > 0 {
            assert(dec_string(n as int) == dec_string((n / 10) as int).push(
                digit_char((n % 10) as int),
            ));
            assert(dec_string(rest as int) + digit_seq(digits@) =~= dec_string(n as int));
        }
    }
    while rest > 0
        invariant
            digits@.len() >= 1,
            forall|k: int| 0 <= k < digits@.len() ==> 0 <= #[trigger] digits@[k] < 10,
            dec_string(n as int) == if rest > 0 {
                dec_string(rest as int) + digit_seq(digits@)
            } else {
                digit_seq(digits@)
            },
        decreases rest,
    {
        let d = rest % 10;
        let next = rest / 10;
        proof {
            lemma_digit_seq_push(digits@, d);
            if next > 0 {
                assert(dec_string(rest as int) == dec_string(next as int).push(
                    digit_char(d as int),
                ));
                assert(dec_string(rest as int) + digit_seq(digits@) =~= dec_string(next as int)
                    + digit_seq(digits@.push(d)));
            } else {
                assert(dec_string(rest as int) == seq![digit_char(rest as int)]);
                assert(dec_string(rest as int) + digit_seq(digits@) =~= digit_seq(
                    digits@.push(d),
                ));
            }
        }
        digits.push(d);
        rest = next;
    }
    let full = Ghost(digit_seq(digits@));
    let mut s = String::new();
    let count = digits.len();
    let mut j: usize = 0;
    while j < count
        invariant
            count == digits@.len(),
            0 <= j <= count,
            forall|k: int| 0 <= k < digits@.len() ==> 0 <= #[trigger] digits@[k] < 10,
            full@ == digit_seq(digits@),
            s@ == full@.subrange(0, j as int),
        decreases count - j,
    {
        let part = digit_str(digits[count - 1 - j]);
        proof {
            lemma_digit_seq_len(digits@);
            lemma_digit_seq_index(digits@, j as int);
            assert(full@.subrange(0, j as int + 1) =~= full@.subrange(0, j as int) + seq![
                full@[j as int],
            ]);
        }
        s.append(part);
        j = j + 1;
    }
    proof {
        lemma_digit_seq_len(digits@);
        assert(s@ =~= digit_seq(digits@));
    }
    s
}

/// The characters for a vector of digit values that holds the least
/// significant digit first, rendered most significant first.
pub open spec fn digit_seq(ds: Seq<u64>) -> Seq<char>
    decreases ds.len(),
{
    if ds.len() == 0 {
        Seq::empty()
    } else {
        digit_seq(ds.drop_last()).insert(0, digit_char(ds.last() as int))
    }
}

/// The rendering has one character per digit.
proof fn lemma_digit_seq_len(ds: Seq<u64>)
    ensures
        digit_seq(ds).len() == ds.len(),
    decreases ds.len(),
{
    if ds.len() > 0 {
        lemma_digit_seq_len(ds.drop_last());
    }
}

/// The rendering reverses the digit order.
proof fn lemma_digit_seq_index(ds: Seq<u64>, j: int)
    requires
        0 <= j < ds.len(),
    ensures
        digit_seq(ds).len() == ds.len(),
        digit_seq(ds)[j] == digit_char(ds[ds.len() - 1 - j] as int),
    decreases ds.len(),
{
    lemma_digit_seq_len(ds);
    if j > 0 {
        lemma_digit_seq_index(ds.drop_last(), j - 1);
    }
}

/// Pushing a digit on the vector prepends its character to the rendering.
proof fn lemma_digit_seq_push(ds: Seq<u64>, d: u64)
    ensures
        digit_seq(ds.push(d)) == digit_seq(ds).insert(0, digit_char(d as int)),
    decreases ds.len(),
{
    assert(ds.push(d).drop_last() =~= ds);
    assert(ds.push(d).last() == d);
}

/// Whether a character is a decimal digit.
pub open spec fn is_digit(c: char) -> bool {
    '0' <= c && c <= '9'
}

/// The value of a decimal digit character.
pub open spec fn digit_value(c: char) -> int {
    c as int - '0' as int
}

/// The value of a string of digit characters, most significant first.
pub open spec fn dec_value(s: Seq<char>) -> int
    decreases s.len(),
{
    if s.len() == 0 {
        0
    } else {
        dec_value(s.drop_last()) * 10 + digit_value(s.last())
    }
}

/// Whether every character of the sequence is a decimal digit.
pub open spec fn all_digits(s: Seq<char>) -> bool {
    forall|k: int| 0 <= k < s.len() ==> is_digit(#[trigger] s[k])
}

/// Parse an unsigned decimal number, as rate-limit headers and identifier
/// strings carry them.  Yields the value exactly when the whole string is
/// one or more digits and the value fits in a `u64`.
pub fn parse_u64(s: &str) -> (r: Option<u64>)
    ensures
        r is Some ==> s@.len() > 0 && all_digits(s@) && dec_value(s@) == r->0 as int,
        r is None ==> s@.len() == 0 || !all_digits(s@) || dec_value(s@) > u64::MAX,
{
    let n = s.unicode_len();
    if n == 0 {
        return None;
    }
    let mut i: usize = 0;
    let mut acc: u64 = 0;
    while i < n
        invariant
            n == s@.len(),
            0 <= i <= n,
            all_digits(s@.subrange(0, i as int)),
            acc as int == dec_value(s@.subrange(0, i as int)),
        decreases n - i,
    {
        let c = s.get_char(i);
        if c < '0' || c > '9' {
            assert(!is_digit(s@[i as int]));
            return None;
        }
        let d: u32 = (c as u32) - ('0' as u32);
        proof {
            assert(s@.subrange(0, i as int + 1).drop_last() =~= s@.subrange(0, i as int));
            assert(s@.subrange(0, i as int + 1).last() == s@[i as int]);
        }
        if acc > (u64::MAX - (d as u64)) / 10 {
            proof {
                if all_digits(s@) {
                    let full = s@.subrange(0, i as int + 1);
                    lemma_dec_value_grows(full, s@);
                    assert(dec_value(full) == acc * 10 + d);
                    assert(acc * 10 + d > u64::MAX) by (nonlinear_arith)
                        requires
                            acc > (u64::MAX - (d as u64)) / 10,
                            d < 10,
                    ;
                }
            }
            return None;
        }
        acc = acc * 10 + (d as u64);
        i = i + 1;
    }
    proof {
        assert(s@.subrange(0, n as int) =~= s@);
    }
    Some(acc)
}

/// The index of the first `.` in a string at or after a position, or the
/// string's length when there is none.
pub open spec fn first_dot(s: Seq<char>, from: int) -> int
    decreases s.len() - from,
    when 0 <= from <= s.len()
{
    if from >= s.len() {
        s.len() as int
    } else if s[from] == '.' {
        from
    } else {
        first_dot(s, from + 1)
    }
}

/// The first dot lies between the start position and the end of the
/// string, and a dot stands there when it lies before the end.
proof fn lemma_first_dot_bounds(s: Seq<char>, from: int)
    requires
        0 <= from <= s.len(),
    ensures
        from <= first_dot(s, from) <= s.len(),
        first_dot(s, from) < s.len() ==> s[first_dot(s, from)] == '.',
    decreases s.len() - from,
{
    if from < s.len() && s[from] != '.' {
        lemma_first_dot_bounds(s, from + 1);
    }
}

/// Whether a string is a decimal header value: an optional minus sign, one
/// or more digits, and an optional fraction after a dot.
pub open spec fn is_header_int(s: Seq<char>) -> bool {
    let start: int = if s.len() > 0 && s[0] == '-' {
        1
    } else {
        0
    };
    let d = first_dot(s, start);
    &&& d > start
    &&& all_digits(s.subrange(start, d))
    &&& (d == s.len() || all_digits(s.subrange(d + 1, s.len() as int)))
}

/// The value of a decimal header: the integer part, with its sign, the
/// fraction discarded.
pub open spec fn header_int_value(s: Seq<char>) -> int {
    let start: int = if s.len() > 0 && s[0] == '-' {
        1
    } else {
        0
    };
    let d = first_dot(s, start);
    if s.len() > 0 && s[0] == '-' {
        -dec_value(s.subrange(start, d))
    } else {
        dec_value(s.subrange(start, d))
    }
}

/// Parse a rate-limit header value: a decimal number, possibly signed,
/// whose fraction — when one is given — is read and discarded.  Yields the
/// integer part exactly when the string follows that grammar and the value
/// fits in an `i64`.
pub fn parse_header_int(s: &str) -> (r: Option<i64>)
    ensures
        r matches Some(v) ==> is_header_int(s@) && v as int == header_int_value(s@),
        r is None ==> !is_header_int(s@) || header_int_value(s@) > i64::MAX
            || header_int_value(s@) < -i64::MAX,
{
    let n = s.unicode_len();
    if n == 0 {
        return None;
    }
    let negative = s.get_char(0) == '-';
    let start: usize = if negative {
        1
    } else {
        0
    };
    let mut i: usize = start;
    let mut acc: u64 = 0;
    let limit: u64 = 0x7fff_ffff_ffff_ffff;
    while i < n && s.get_char(i) != '.'
        invariant
            n == s@.len(),
            start <= i <= n,
            start == if negative {
                1int
            } else {
                0int
            },
            negative ==> s@[0] == '-',
            !negative ==> (s@.len() == 0 || s@[0] != '-'),
            first_dot(s@, start as int) == first_dot(s@, i as int),
            all_digits(s@.subrange(start as int, i as int)),
            acc <= limit,
            acc as int == dec_value(s@.subrange(start as int, i as int)),
            limit == i64::MAX,
        decreases n - i,
    {
        let c = s.get_char(i);
        if c < '0' || c > '9' {
            proof {
                let d = first_dot(s@, start as int);
                lemma_first_dot_bounds(s@, i as int + 1);
                assert(first_dot(s@, i as int) == first_dot(s@, i as int + 1));
                assert(d > i as int);
                assert(!is_digit(s@.subrange(start as int, d)[i - start]));
            }
            return None;
        }
        let v: u32 = (c as u32) - ('0' as u32);
        proof {
            assert(s@.subrange(start as int, i as int + 1).drop_last() =~= s@.subrange(
                start as int,
                i as int,
            ));
            assert(s@.subrange(start as int, i as int + 1).last() == s@[i as int]);
        }
        if acc > (limit - (v as u64)) / 10 {
            proof {
                let d = first_dot(s@, start as int);
                if is_header_int(s@) {
                    let full = s@.subrange(start as int, i as int + 1);
                    let whole = s@.subrange(start as int, d);
                    lemma_first_dot_bounds(s@, i as int + 1);
                    assert(first_dot(s@, i as int) == first_dot(s@, i as int + 1));
                    assert(i as int + 1 <= d);
                    assert(forall|k: int| 0 <= k < full.len() ==> full[k] == whole[k]);
                    lemma_dec_value_grows(full, whole);
                    assert(dec_value(full) == acc * 10 + v);
                    assert(acc * 10 + v > limit) by (nonlinear_arith)
                        requires
                            acc > (limit - (v as u64)) / 10,
                            v < 10,
                    ;
                    lemma_dec_value_nonneg(whole);
                }
            }
            return None;
        }
        acc = acc * 10 + (v as u64);
        i = i + 1;
        proof {
            assert(first_dot(s@, i as int - 1) == first_dot(s@, i as int));
        }
    }
    if i == start {
        proof {
            assert(first_dot(s@, start as int) == start as int);
        }
        return None;
    }
    proof {
        if i < n {
            assert(first_dot(s@, i as int) == i as int);
        }
        assert(first_dot(s@, start as int) == i as int);
    }
    if i < n {
        let mut j = i + 1;
        while j < n
            invariant
                n == s@.len(),
                i < n,
                i as int + 1 <= j <= n,
                start == if negative {
                    1int
                } else {
                    0int
                },
                negative ==> s@[0] == '-',
                !negative ==> (s@.len() == 0 || s@[0] != '-'),
                first_dot(s@, start as int) == i as int,
                all_digits(s@.subrange(i as int + 1, j as int)),
            decreases n - j,
        {
            let c = s.get_char(j);
            if c < '0' || c > '9' {
                proof {
                    assert(!is_digit(s@.subrange(i as int + 1, n as int)[j - (i + 1)]));
                }
                return None;
            }
            proof {
                assert(s@.subrange(i as int + 1, j as int + 1).drop_last() =~= s@.subrange(
                    i as int + 1,
                    j as int,
                ));
                assert(s@.subrange(i as int + 1, j as int + 1).last() == s@[j as int]);
            }
            j = j + 1;
        }
        proof {
            assert(all_digits(s@.subrange(i as int + 1, n as int)));
        }
    }
    if negative {
        Some(-(acc as i64))
    } else {
        Some(acc as i64)
    }
}

/// The range check for a user tag: the platform issues tags between 0
/// and 9999, whether they arrive as numbers or as digit strings.
pub fn check_discriminator(n: u64) -> (r: Option<u16>)
    ensures
        r is Some <==> n <= 9999,
        r matches Some(d) ==> d == n,
{
    if n <= 9999 {
        Some(n as u16)
    } else {
        None
    }
}

/// A longer all-digit string never has a smaller value.
proof fn lemma_dec_value_grows(pre: Seq<char>, s: Seq<char>)
    requires
        pre.len() <= s.len(),
        forall|k: int| 0 <= k < pre.len() ==> pre[k] == s[k],
        all_digits(s),
    ensures
        dec_value(pre) <= dec_value(s),
    decreases s.len(),
{
    if pre.len() == s.len() {
        assert(pre =~= s);
    } else {
        lemma_dec_value_grows(pre, s.drop_last());
        lemma_dec_value_nonneg(s.drop_last());
        assert(dec_value(s.drop_last()) * 10 + digit_value(s.last()) >= dec_value(s.drop_last()))
            by (nonlinear_arith)
            requires
                dec_value(s.drop_last()) >= 0,
                digit_value(s.last()) >= 0,
        ;
    }
}

/// An all-digit string has a non-negative value.
proof fn lemma_dec_value_nonneg(s: Seq<char>)
    requires
        all_digits(s),
    ensures
        dec_value(s) >= 0,
    decreases s.len(),
{
    if s.len() > 0 {
        lemma_dec_value_nonneg(s.drop_last());
        assert(dec_value(s.drop_last()) * 10 >= 0) by (nonlinear_arith)
            requires
                dec_value(s.drop_last()) >= 0,
        ;
    }
}

} // verus!
