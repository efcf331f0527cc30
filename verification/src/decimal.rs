//! Decimal integers in text: reading them as `str::parse::<i32>` does, and writing them.
use vstd::prelude::*;
use crate::error::ErrorKind;
use vstd::string::StringSliceAdditionalSpecFns;

verus! {

/// Whether `b` is one of `0-9`.
pub open spec fn is_digit(b: u8) -> bool {
    48 <= b <= 57
}

/// Whether every byte of `ds` is a digit.
pub open spec fn all_digits(ds: Seq<u8>) -> bool {
    forall|i: int| 0 <= i < ds.len() ==> is_digit(#[trigger] ds[i])
}

/// The number that the decimal digits `ds` stand for.
pub open spec fn digits_value(ds: Seq<u8>) -> int
    decreases ds.len(),
{
    if ds.len() == 0 {
        0
    } else {
        digits_value(ds.drop_last()) * 10 + (ds.last() - 48)
    }
}

/// The signed value of a decimal text: an optional `+` or `-` followed by at least one
/// digit. `None` for anything else.
pub open spec fn decimal_value(s: Seq<u8>) -> Option<int> {
    if s.len() == 0 {
        None
    } else if s[0] == 43 || s[0] == 45 {
        if s.len() > 1 && all_digits(s.skip(1)) {
            Some(
                if s[0] == 45 {
                    -digits_value(s.skip(1))
                } else {
                    digits_value(s.skip(1))
                },
            )
        } else {
            None
        }
    } else if all_digits(s) {
        Some(digits_value(s))
    } else {
        None
    }
}

/// What `str::parse::<i32>` accepts: a decimal text whose value fits an `i32`.
pub open spec fn parses_as_i32(s: Seq<u8>) -> bool {
    decimal_value(s) matches Some(v) && i32::MIN <= v <= i32::MAX
}

proof fn lemma_digits_value_nonneg(ds: Seq<u8>)
    requires
        all_digits(ds),
    ensures
        digits_value(ds) >= 0,
    decreases ds.len(),
{
    if ds.len() > 0 {
        lemma_digits_value_nonneg(ds.drop_last());
    }
}

proof fn lemma_digits_value_grows(ds: Seq<u8>, k: int)
    requires
        all_digits(ds),
        0 <= k <= ds.len(),
    ensures
        digits_value(ds.take(k)) <= digits_value(ds),
    decreases ds.len() - k,
{
    if k < ds.len() {
        lemma_digits_value_grows(ds, k + 1);
        assert(ds.take(k + 1).drop_last() =~= ds.take(k));
        lemma_digits_value_nonneg(ds.take(k));
    } else {
        assert(ds.take(k) =~= ds);
    }
}

/// Reads an unsigned run of digits, `None` when it is not all digits or exceeds `2^31`.
fn read_digits(ds: &[u8]) -> (res: Option<i64>)
    ensures
        res matches Some(v) ==> all_digits(ds@) && v == digits_value(ds@) && 0 <= v <= 2147483648,
        res is None ==> !all_digits(ds@) || digits_value(ds@) > 2147483648,
{
    let mut acc: i64 = 0;
    let mut k: usize = 0;
    while k < ds.len()
        invariant
            k <= ds@.len(),
            all_digits(ds@.take(k as int)),
            acc == digits_value(ds@.take(k as int)),
            0 <= acc <= 2147483648,
        decreases ds@.len() - k,
    {
        let b = ds[k];
        if b < 48 || b > 57 {
            assert(!is_digit(ds@[k as int]));
            return None;
        }
        assert(ds@.take(k + 1).drop_last() =~= ds@.take(k as int));
        acc = acc * 10 + (b - 48) as i64;
        k = k + 1;
        if acc > 2147483648 {
            proof {
                if all_digits(ds@) {
                    lemma_digits_value_grows(ds@, k as int);
                }
            }
            return None;
        }
    }
    assert(ds@.take(k as int) =~= ds@);
    Some(acc)
}

/// Reads a decimal integer as `str::parse::<i32>` does: an optional sign and at least one
/// digit, in range. Anything else fails with `ParseIntError`.
pub fn parse_i32(s: &str) -> (res: Result<i32, ErrorKind>)
    ensures
        res is Ok <==> parses_as_i32(s.spec_bytes()),
        res matches Ok(v) ==> decimal_value(s.spec_bytes()) == Some(v as int),
        res matches Err(e) ==> e == ErrorKind::ParseIntError,
{
    let bytes = s.as_bytes();
    let n = bytes.len();
    if n == 0 {
        return Err(ErrorKind::ParseIntError);
    }
    let first = bytes[0];
    if first == 43 || first == 45 {
        if n == 1 {
            return Err(ErrorKind::ParseIntError);
        }
        let digits = vstd::slice::slice_subrange(bytes, 1, n);
        assert(digits@ =~= bytes@.skip(1));
        match read_digits(digits) {
            None => Err(ErrorKind::ParseIntError),
            Some(v) => {
                if first == 45 {
                    Ok((-v) as i32)
                } else if v <= 2147483647 {
                    Ok(v as i32)
                } else {
                    Err(ErrorKind::ParseIntError)
                }
            },
        }
    } else {
        match read_digits(bytes) {
            None => Err(ErrorKind::ParseIntError),
            Some(v) => {
                if v <= 2147483647 {
                    Ok(v as i32)
                } else {
                    Err(ErrorKind::ParseIntError)
                }
            },
        }
    }
}

/// The character of a digit `d < 10`.
pub open spec fn digit_char(d: int) -> char {
    (48 + d) as char
}

/// The decimal characters of `n`, without leading zeros.
pub open spec fn decimal_chars(n: nat) -> Seq<char>
    decreases n,
{
    if n < 10 {
        seq![digit_char(n as int)]
    } else {
        decimal_chars(n / 10).push(digit_char((n % 10) as int))
    }
}

/// The one-character text of a digit.
fn digit_str(d: u32) -> (res: &'static str)
    requires
        d < 10,
    ensures
        res@ == seq![digit_char(d as int)],
{
    if d == 0 {
        proof { reveal_strlit("0"); }
        "0"
    } else if d == 1 {
        proof { reveal_strlit("1"); }
        "1"
    } else if d == 2 {
        proof { reveal_strlit("2"); }
        "2"
    } else if d == 3 {
        proof { reveal_strlit("3"); }
        "3"
    } else if d == 4 {
        proof { reveal_strlit("4"); }
        "4"
    } else if d == 5 {
        proof { reveal_strlit("5"); }
        "5"
    } else if d == 6 {
        proof { reveal_strlit("6"); }
        "6"
    } else if d == 7 {
        proof { reveal_strlit("7"); }
        "7"
    } else if d == 8 {
        proof { reveal_strlit("8"); }
        "8"
    } else {
        proof { reveal_strlit("9"); }
        "9"
    }
}

/// Appends the decimal characters of `n` to `out`.
pub fn push_decimal(out: &mut String, n: u32)
    ensures
        final(out)@ == old(out)@ + decimal_chars(n as nat),
    decreases n,
{
    if n >= 10 {
        push_decimal(out, n / 10);
    }
    out.append(digit_str(n % 10));
    assert(decimal_chars(n as nat) =~= if n < 10 {
        seq![digit_char(n as int)]
    } else {
        decimal_chars((n / 10) as nat).push(digit_char((n % 10) as int))
    });
}

} // verus!
