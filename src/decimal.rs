//! Decimal text as sent by the exchange, read into fixed-point integers.
use vstd::prelude::*;
use vstd::utf8::encode_utf8;

verus! {

/// Number of fractional decimal digits carried by an amount: an amount is an
/// integer count of units of 10^-FRACTION_DIGITS.
pub const FRACTION_DIGITS: usize = 18;

/// The ASCII code of '0'.
pub const ZERO_BYTE: u8 = 48;

/// The ASCII code of '9'.
pub const NINE_BYTE: u8 = 57;

/// The ASCII code of '.'.
pub const POINT_BYTE: u8 = 46;

pub open spec fn is_digit(b: u8) -> bool {
    ZERO_BYTE <= b && b <= NINE_BYTE
}

pub open spec fn all_digits(s: Seq<u8>) -> bool {
    forall|i: int| 0 <= i < s.len() ==> is_digit(#[trigger] s[i])
}

/// Value of a run of decimal digits, most significant first.
pub open spec fn digits_value(s: Seq<u8>) -> nat
    decreases s.len(),
{
    if s.len() == 0 {
        0
    } else {
        digits_value(s.drop_last()) * 10 + (s.last() - ZERO_BYTE) as nat
    }
}

/// Length of the run of digits that starts `s`.
pub open spec fn leading_digits(s: Seq<u8>) -> nat
    decreases s.len(),
{
    if s.len() == 0 || !is_digit(s[0]) {
        0
    } else {
        1 + leading_digits(s.drop_first())
    }
}

/// `n` zero digits.
pub open spec fn zeros(n: nat) -> Seq<u8> {
    Seq::new(n, |_i: int| ZERO_BYTE)
}

/// The amount, in units of 10^-FRACTION_DIGITS, that a decimal text denotes:
/// one or more digits, optionally followed by a point and one to
/// FRACTION_DIGITS digits. Any other text denotes nothing.
pub open spec fn decimal_units(s: Seq<u8>) -> Option<nat> {
    let k = leading_digits(s);
    let frac = s.subrange(k + 1 as int, s.len() as int);
    if k == 0 {
        None
    } else if k == s.len() {
        Some(digits_value(s + zeros(FRACTION_DIGITS as nat)))
    } else if s[k as int] == POINT_BYTE && 1 <= frac.len() <= FRACTION_DIGITS && all_digits(frac) {
        Some(digits_value(s.subrange(0, k as int) + frac + zeros((FRACTION_DIGITS - frac.len()) as nat)))
    } else {
        None
    }
}

/// The integer that a text of one or more decimal digits denotes.
pub open spec fn unsigned_value(s: Seq<u8>) -> Option<nat> {
    if s.len() > 0 && all_digits(s) {
        Some(digits_value(s))
    } else {
        None
    }
}

/// The amount that the text `s` denotes, where it fits in a `u128`.
pub open spec fn decimal_amount(s: Seq<u8>) -> Option<u128> {
    match decimal_units(s) {
        Some(x) => if x <= u128::MAX { Some(x as u128) } else { None },
        None => None,
    }
}

/// The integer that the text `s` denotes, where it fits in a `u64`.
pub open spec fn unsigned_amount(s: Seq<u8>) -> Option<u64> {
    match unsigned_value(s) {
        Some(x) => if x <= u64::MAX { Some(x as u64) } else { None },
        None => None,
    }
}

/// The amount that the text `s` denotes: `decimal_amount` of its UTF-8 bytes.
pub open spec fn decimal_text(s: Seq<char>) -> Option<u128> {
    decimal_amount(encode_utf8(s))
}

/// The integer that the text `s` denotes: `unsigned_amount` of its UTF-8 bytes.
pub open spec fn unsigned_text(s: Seq<char>) -> Option<u64> {
    unsigned_amount(encode_utf8(s))
}

proof fn lemma_digits_push(s: Seq<u8>, d: u8)
    ensures
        digits_value(s.push(d)) == digits_value(s) * 10 + (d - ZERO_BYTE) as nat,
{
    assert(s.push(d).drop_last() =~= s);
}

proof fn lemma_digits_extend(x: Seq<u8>, y: Seq<u8>)
    ensures
        digits_value(x + y) >= digits_value(x),
    decreases y.len(),
{
    if y.len() == 0 {
        assert(x + y =~= x);
    } else {
        assert((x + y).drop_last() =~= x + y.drop_last());
        lemma_digits_extend(x, y.drop_last());
    }
}

proof fn lemma_leading_digits(s: Seq<u8>, k: nat)
    requires
        k <= s.len(),
        forall|j: int| 0 <= j < k ==> is_digit(#[trigger] s[j]),
        k == s.len() || !is_digit(s[k as int]),
    ensures
        leading_digits(s) == k,
    decreases k,
{
    if k > 0 {
        lemma_leading_digits(s.drop_first(), (k - 1) as nat);
    }
}

/// Appends the digits `b[lo..hi]` to `acc`, the value of the digits `prefix`.
fn push_digits(b: &[u8], lo: usize, hi: usize, acc: u128, Ghost(prefix): Ghost<Seq<u8>>) -> (r: Option<u128>)
    requires
        lo <= hi <= b@.len(),
        all_digits(b@.subrange(lo as int, hi as int)),
        acc == digits_value(prefix),
    ensures
        match r {
            Some(v) => v == digits_value(prefix + b@.subrange(lo as int, hi as int)),
            None => digits_value(prefix + b@.subrange(lo as int, hi as int)) > u128::MAX,
        },
{
    let mut i = lo;
    let mut acc = acc;
    while i < hi
        invariant
            lo <= i <= hi <= b@.len(),
            all_digits(b@.subrange(lo as int, hi as int)),
            acc == digits_value(prefix + b@.subrange(lo as int, i as int)),
        decreases hi - i,
    {
        let ghost before = prefix + b@.subrange(lo as int, i as int);
        let ghost after = prefix + b@.subrange(lo as int, i + 1);
        let ghost full = prefix + b@.subrange(lo as int, hi as int);
        proof {
            assert(b@.subrange(lo as int, hi as int)[i - lo] == b@[i as int]);
            assert(after =~= before.push(b@[i as int]));
            lemma_digits_push(before, b@[i as int]);
            assert(full =~= after + b@.subrange(i + 1, hi as int));
            lemma_digits_extend(after, b@.subrange(i + 1, hi as int));
        }
        let d = (b[i] - ZERO_BYTE) as u128;
        match acc.checked_mul(10) {
            None => {
                return None;
            },
            Some(m) => match m.checked_add(d) {
                None => {
                    return None;
                },
                Some(v) => {
                    acc = v;
                },
            },
        }
        i = i + 1;
    }
    Some(acc)
}

/// Appends `count` zero digits to `acc`, the value of the digits `prefix`.
fn push_zeros(acc: u128, count: usize, Ghost(prefix): Ghost<Seq<u8>>) -> (r: Option<u128>)
    requires
        acc == digits_value(prefix),
    ensures
        match r {
            Some(v) => v == digits_value(prefix + zeros(count as nat)),
            None => digits_value(prefix + zeros(count as nat)) > u128::MAX,
        },
{
    let mut i: usize = 0;
    let mut acc = acc;
    while i < count
        invariant
            i <= count,
            acc == digits_value(prefix + zeros(i as nat)),
        decreases count - i,
    {
        let ghost before = prefix + zeros(i as nat);
        let ghost after = prefix + zeros((i + 1) as nat);
        proof {
            assert(after =~= before.push(ZERO_BYTE));
            lemma_digits_push(before, ZERO_BYTE);
            assert(prefix + zeros(count as nat) =~= after + zeros((count - i - 1) as nat));
            lemma_digits_extend(after, zeros((count - i - 1) as nat));
        }
        match acc.checked_mul(10) {
            None => {
                return None;
            },
            Some(v) => {
                acc = v;
            },
        }
        i = i + 1;
    }
    Some(acc)
}

/// Length of the run of digits that starts `b`.
fn count_leading_digits(b: &[u8]) -> (k: usize)
    ensures
        k == leading_digits(b@),
        k <= b@.len(),
        forall|j: int| 0 <= j < k ==> is_digit(#[trigger] b@[j]),
{
    let mut k: usize = 0;
    while k < b.len() && ZERO_BYTE <= b[k] && b[k] <= NINE_BYTE
        invariant
            k <= b@.len(),
            forall|j: int| 0 <= j < k ==> is_digit(#[trigger] b@[j]),
        decreases b@.len() - k,
    {
        k = k + 1;
    }
    proof {
        lemma_leading_digits(b@, k as nat);
    }
    k
}

/// Whether every byte of `b[lo..hi]` is a digit.
fn digits_only(b: &[u8], lo: usize, hi: usize) -> (r: bool)
    requires
        lo <= hi <= b@.len(),
    ensures
        r == all_digits(b@.subrange(lo as int, hi as int)),
{
    let mut i = lo;
    while i < hi
        invariant
            lo <= i <= hi <= b@.len(),
            forall|j: int| lo <= j < i ==> is_digit(#[trigger] b@[j]),
        decreases hi - i,
    {
        if b[i] < ZERO_BYTE || b[i] > NINE_BYTE {
            assert(b@.subrange(lo as int, hi as int)[i - lo] == b@[i as int]);
            return false;
        }
        i = i + 1;
    }
    assert forall|j: int| 0 <= j < hi - lo implies is_digit(#[trigger] b@.subrange(lo as int, hi as int)[j]) by {
        assert(b@.subrange(lo as int, hi as int)[j] == b@[lo + j]);
    }
    true
}

/// Reads a decimal amount such as `"67890.125"` into units of
/// 10^-FRACTION_DIGITS. Text that is not a decimal, has more than
/// FRACTION_DIGITS fractional digits, or denotes more than `u128::MAX` units
/// gives `None`.
pub fn parse_decimal(s: &str) -> (r: Option<u128>)
    ensures
        r == decimal_text(s@),
{
    let b = s.as_bytes();
    let n = b.len();
    let k = count_leading_digits(b);
    if k == 0 {
        return None;
    }
    proof {
        assert forall|j: int| 0 <= j < k implies is_digit(#[trigger] b@.subrange(0, k as int)[j]) by {
            assert(b@.subrange(0, k as int)[j] == b@[j]);
        }
        assert(Seq::<u8>::empty() + b@.subrange(0, k as int) =~= b@.subrange(0, k as int));
    }
    let whole = push_digits(b, 0, k, 0, Ghost(Seq::empty()));
    if k == n {
        proof {
            assert(b@.subrange(0, k as int) =~= b@);
        }
        match whole {
            None => {
                proof {
                    lemma_digits_extend(b@, zeros(FRACTION_DIGITS as nat));
                }
                return None;
            },
            Some(w) => {
                return push_zeros(w, FRACTION_DIGITS, Ghost(b@));
            },
        }
    }
    let ghost frac = b@.subrange(k + 1 as int, n as int);
    if b[k] != POINT_BYTE || n - k - 1 < 1 || n - k - 1 > FRACTION_DIGITS || !digits_only(b, k + 1, n) {
        return None;
    }
    let ghost head = b@.subrange(0, k as int);
    let ghost pad = zeros((FRACTION_DIGITS - frac.len()) as nat);
    proof {
        assert(Seq::<u8>::empty() + head =~= head);
    }
    match whole {
        None => {
            proof {
                assert(head + frac + pad =~= head + (frac + pad));
                lemma_digits_extend(head, frac + pad);
            }
            None
        },
        Some(w) => match push_digits(b, k + 1, n, w, Ghost(head)) {
            None => {
                proof {
                    lemma_digits_extend(head + frac, pad);
                }
                None
            },
            Some(v) => push_zeros(v, FRACTION_DIGITS - (n - k - 1), Ghost(head + frac)),
        },
    }
}

/// Reads a text of one or more decimal digits, such as a version number.
/// Any other text, or a value above `u64::MAX`, gives `None`.
pub fn parse_unsigned(s: &str) -> (r: Option<u64>)
    ensures
        r == unsigned_text(s@),
{
    let b = s.as_bytes();
    let n = b.len();
    if n == 0 || !digits_only(b, 0, n) {
        return None;
    }
    proof {
        assert(b@.subrange(0, n as int) =~= b@);
        assert(Seq::<u8>::empty() + b@ =~= b@);
    }
    match push_digits(b, 0, n, 0, Ghost(Seq::empty())) {
        Some(v) => if v <= u64::MAX as u128 {
            Some(v as u64)
        } else {
            None
        },
        None => None,
    }
}

} // verus!
