//! Parsing of human-friendly bitrate strings.
//!
//! A bitrate is a decimal number with an optional `M` (million) or `K`
//! (thousand) suffix, either case, with surrounding ASCII whitespace
//! ignored: `6M`, `500k`, `6000000`. The number itself may carry one
//! leading `+`.

use vstd::prelude::*;
use vstd::string::StringSliceAdditionalSpecFns;

verus! {

/// Why a bitrate string was rejected.
#[derive(Clone, Copy, Debug, PartialEq, Eq, Structural)]
pub enum BitrateError {
    /// Nothing but whitespace.
    Empty,
    /// The part before the suffix is not a decimal number that fits.
    InvalidNumber,
    /// The number fits, but applying the suffix overflows.
    Overflow,
}

/// ASCII whitespace, as trimming removes it.
pub open spec fn is_ascii_space(b: u8) -> bool {
    b == 32 || (9 <= b && b <= 13)
}

/// An ASCII decimal digit.
pub open spec fn is_ascii_digit(b: u8) -> bool {
    48 <= b && b <= 57
}

/// The sequence with its leading whitespace removed.
pub open spec fn trim_front(s: Seq<u8>) -> Seq<u8>
    decreases s.len(),
{
    if s.len() > 0 && is_ascii_space(s[0]) {
        trim_front(s.drop_first())
    } else {
        s
    }
}

/// The sequence with its trailing whitespace removed.
pub open spec fn trim_back(s: Seq<u8>) -> Seq<u8>
    decreases s.len(),
{
    if s.len() > 0 && is_ascii_space(s.last()) {
        trim_back(s.drop_last())
    } else {
        s
    }
}

/// The sequence with whitespace removed from both ends.
pub open spec fn trimmed(s: Seq<u8>) -> Seq<u8> {
    trim_back(trim_front(s))
}

/// Every byte is a decimal digit.
pub open spec fn all_digits(s: Seq<u8>) -> bool {
    forall|i: int| 0 <= i < s.len() ==> is_ascii_digit(#[trigger] s[i])
}

/// The value of a sequence of decimal digits, most significant first.
pub open spec fn digits_value(s: Seq<u8>) -> nat
    decreases s.len(),
{
    if s.len() == 0 {
        0
    } else {
        (digits_value(s.drop_last()) * 10 + (s.last() - 48)) as nat
    }
}

/// The factor named by the trimmed string's last byte: `M` or `m` is a
/// million, `K` or `k` a thousand, anything else leaves the number as
/// it stands.
pub open spec fn multiplier_of(t: Seq<u8>) -> u64
    recommends
        t.len() > 0,
{
    if t.last() == 77 || t.last() == 109 {
        1_000_000
    } else if t.last() == 75 || t.last() == 107 {
        1_000
    } else {
        1
    }
}

/// The trimmed string without its suffix letter, if it has one.
pub open spec fn number_part(t: Seq<u8>) -> Seq<u8>
    recommends
        t.len() > 0,
{
    if multiplier_of(t) == 1 {
        t
    } else {
        t.drop_last()
    }
}

/// The number with one optional leading `+` removed.
pub open spec fn unsigned_part(n: Seq<u8>) -> Seq<u8> {
    if n.len() > 0 && n[0] == 43 {
        n.drop_first()
    } else {
        n
    }
}

/// What parsing a bitrate string returns, byte for byte: the digits'
/// value scaled by the suffix, or the exact reason for rejection.
pub open spec fn bitrate_spec(s: Seq<u8>) -> Result<u64, BitrateError> {
    let t = trimmed(s);
    if t.len() == 0 {
        Err(BitrateError::Empty)
    } else {
        let digits = unsigned_part(number_part(t));
        if digits.len() == 0 || !all_digits(digits) || digits_value(digits) > u64::MAX {
            Err(BitrateError::InvalidNumber)
        } else if digits_value(digits) * multiplier_of(t) > u64::MAX {
            Err(BitrateError::Overflow)
        } else {
            Ok((digits_value(digits) * multiplier_of(t)) as u64)
        }
    }
}

/// Dropping a known run of leading whitespace is exactly what
/// `trim_front` does.
proof fn lemma_trim_front_at(s: Seq<u8>, lo: int)
    requires
        0 <= lo <= s.len(),
        forall|k: int| 0 <= k < lo ==> is_ascii_space(#[trigger] s[k]),
        lo < s.len() ==> !is_ascii_space(s[lo]),
    ensures
        trim_front(s) == s.skip(lo),
    decreases lo,
{
    if lo == 0 {
        assert(s.skip(0) =~= s);
    } else {
        lemma_trim_front_at(s.drop_first(), lo - 1);
        assert(s.drop_first().skip(lo - 1) =~= s.skip(lo));
    }
}

/// Dropping a known run of trailing whitespace is exactly what
/// `trim_back` does.
proof fn lemma_trim_back_at(s: Seq<u8>, hi: int)
    requires
        0 <= hi <= s.len(),
        forall|k: int| hi <= k < s.len() ==> is_ascii_space(#[trigger] s[k]),
        hi > 0 ==> !is_ascii_space(s[hi - 1]),
    ensures
        trim_back(s) == s.take(hi),
    decreases s.len(),
{
    if hi == s.len() {
        if s.len() > 0 {
            assert(!is_ascii_space(s.last()));
        }
        assert(s.take(hi) =~= s);
    } else {
        assert(is_ascii_space(s.last()));
        lemma_trim_back_at(s.drop_last(), hi);
        assert(s.drop_last().take(hi) =~= s.take(hi));
    }
}

/// A digit string's value only grows as more digits follow.
proof fn lemma_digits_value_prefix_le(s: Seq<u8>, i: int)
    requires
        0 <= i <= s.len(),
        all_digits(s),
    ensures
        digits_value(s.take(i)) <= digits_value(s),
    decreases s.len() - i,
{
    if i == s.len() {
        assert(s.take(i) =~= s);
    } else {
        assert(s.take(i + 1).drop_last() =~= s.take(i));
        assert(s.take(i + 1).last() == s[i]);
        assert(digits_value(s.take(i + 1)) == digits_value(s.take(i)) * 10 + (s[i] - 48));
        lemma_digits_value_prefix_le(s, i + 1);
    }
}

/// Parse a bitrate such as `6M`, `500K` or `6000000` into bits per
/// second. Returns exactly what `bitrate_spec` says of the string's
/// bytes: `Empty` for an all-whitespace string, `InvalidNumber` when
/// what precedes the suffix is not a decimal number representable in 64
/// bits, and `Overflow` when scaling by the suffix leaves the 64-bit
/// range.
pub fn parse_bitrate(s: &str) -> (r: Result<u64, BitrateError>)
    ensures
        r == bitrate_spec(s.spec_bytes()),
{
    let b: &[u8] = s.as_bytes();
    let n: usize = b.len();

    let mut lo: usize = 0;
    while lo < n && (b[lo] == 32 || (9 <= b[lo] && b[lo] <= 13))
        invariant
            0 <= lo <= n,
            n == b@.len(),
            forall|k: int| 0 <= k < lo ==> is_ascii_space(#[trigger] b@[k]),
        decreases n - lo,
    {
        lo = lo + 1;
    }
    let mut hi: usize = n;
    while hi > lo && (b[hi - 1] == 32 || (9 <= b[hi - 1] && b[hi - 1] <= 13))
        invariant
            lo <= hi <= n,
            n == b@.len(),
            forall|k: int| hi <= k < n ==> is_ascii_space(#[trigger] b@[k]),
        decreases hi,
    {
        hi = hi - 1;
    }
    proof {
        lemma_trim_front_at(b@, lo as int);
        lemma_trim_back_at(b@.skip(lo as int), hi - lo);
        assert(b@.skip(lo as int).take(hi - lo) =~= b@.subrange(lo as int, hi as int));
        assert(trimmed(b@) == b@.subrange(lo as int, hi as int));
    }
    let ghost t = b@.subrange(lo as int, hi as int);

    if hi == lo {
        return Err(BitrateError::Empty);
    }

    let last = b[hi - 1];
    let mult: u64 = if last == 77 || last == 109 {
        1_000_000
    } else if last == 75 || last == 107 {
        1_000
    } else {
        1
    };
    let num_hi: usize = if mult == 1 {
        hi
    } else {
        hi - 1
    };
    proof {
        assert(t.last() == b@[hi - 1]);
        assert(mult == multiplier_of(t));
        assert(t.drop_last() =~= b@.subrange(lo as int, hi - 1));
        assert(number_part(t) =~= b@.subrange(lo as int, num_hi as int));
    }

    let num_lo: usize = if lo < num_hi && b[lo] == 43 {
        lo + 1
    } else {
        lo
    };
    proof {
        let np = b@.subrange(lo as int, num_hi as int);
        if num_lo == lo + 1 {
            assert(np.len() > 0 && np[0] == 43);
            assert(np.drop_first() =~= b@.subrange(num_lo as int, num_hi as int));
        }
        assert(unsigned_part(np) =~= b@.subrange(num_lo as int, num_hi as int));
    }
    let ghost digits = b@.subrange(num_lo as int, num_hi as int);

    if num_lo == num_hi {
        return Err(BitrateError::InvalidNumber);
    }

    let mut acc: u64 = 0;
    let mut i: usize = num_lo;
    while i < num_hi
        invariant
            num_lo <= i <= num_hi <= n,
            num_lo < num_hi,
            n == b@.len(),
            b@ == s.spec_bytes(),
            t == trimmed(b@),
            t.len() > 0,
            mult == multiplier_of(t),
            digits == unsigned_part(number_part(t)),
            digits == b@.subrange(num_lo as int, num_hi as int),
            all_digits(digits.take(i - num_lo)),
            acc == digits_value(digits.take(i - num_lo)),
        decreases num_hi - i,
    {
        let ghost j = i as int - num_lo as int;
        let d = b[i];
        if !(48 <= d && d <= 57) {
            proof {
                assert(digits[j] == b@[i as int]);
                assert(!all_digits(digits));
            }
            return Err(BitrateError::InvalidNumber);
        }
        proof {
            assert(digits.take(j + 1).drop_last() =~= digits.take(j));
            assert(digits.take(j + 1).last() == b@[i as int]);
            assert forall|k: int| 0 <= k < j + 1 implies is_ascii_digit(
                #[trigger] digits.take(j + 1)[k],
            ) by {
                if k < j {
                    assert(digits.take(j + 1)[k] == digits.take(j)[k]);
                }
            }
            assert(digits_value(digits.take(j + 1)) == acc * 10 + (d - 48));
        }
        let scaled = match acc.checked_mul(10) {
            Some(x) => x,
            None => {
                proof {
                    overflow_means_invalid(digits, j + 1);
                }
                return Err(BitrateError::InvalidNumber);
            },
        };
        let next = match scaled.checked_add((d - 48) as u64) {
            Some(x) => x,
            None => {
                proof {
                    overflow_means_invalid(digits, j + 1);
                }
                return Err(BitrateError::InvalidNumber);
            },
        };
        acc = next;
        i = i + 1;
    }
    proof {
        assert(digits.take(num_hi as int - num_lo as int) =~= digits);
    }

    match acc.checked_mul(mult) {
        Some(total) => Ok(total),
        None => Err(BitrateError::Overflow),
    }
}

/// If even a prefix of the digits already exceeds the 64-bit range, the
/// whole digit string is not a representable number.
proof fn overflow_means_invalid(digits: Seq<u8>, j: int)
    requires
        0 <= j <= digits.len(),
        all_digits(digits.take(j)),
        digits_value(digits.take(j)) > u64::MAX,
    ensures
        !all_digits(digits) || digits_value(digits) > u64::MAX,
{
    if all_digits(digits) {
        lemma_digits_value_prefix_le(digits, j);
    }
}

} // verus!
