//! Byte-string helpers the messages and validations are built from:
//! concatenation, decimal rendering of integers, ASCII case folding.
//!
//! Text crosses the C ABI as NUL-terminated UTF-8; inside the library it is
//! handled as the byte sequence without the terminator.

use vstd::prelude::*;
use vstd::string::StringSliceAdditionalSpecFns;

verus! {

/// The UTF-8 bytes of a string literal or slice.
pub open spec fn utf8(s: &str) -> Seq<u8> {
    s.spec_bytes()
}

/// Copy a byte slice into a fresh vector.
pub fn bytes_of(s: &[u8]) -> (out: Vec<u8>)
    ensures
        out@ == s@,
{
    let mut out: Vec<u8> = Vec::with_capacity(s.len());
    let mut i: usize = 0;
    while i < s.len()
        invariant
            i <= s@.len(),
            out@ == s@.subrange(0, i as int),
        decreases s@.len() - i,
    {
        out.push(s[i]);
        proof {
            assert(s@.subrange(0, i + 1) =~= s@.subrange(0, i as int).push(s@[i as int]));
        }
        i = i + 1;
    }
    proof {
        assert(s@.subrange(0, s@.len() as int) =~= s@);
    }
    out
}

/// Append the bytes of `tail` to `out`.
pub fn push_bytes(out: &mut Vec<u8>, tail: &[u8])
    ensures
        final(out)@ == old(out)@ + tail@,
{
    let mut i: usize = 0;
    while i < tail.len()
        invariant
            i <= tail@.len(),
            out@ == old(out)@ + tail@.subrange(0, i as int),
        decreases tail@.len() - i,
    {
        out.push(tail[i]);
        proof {
            assert(tail@.subrange(0, i + 1) =~= tail@.subrange(0, i as int).push(tail@[i as int]));
        }
        i = i + 1;
    }
    proof {
        assert(tail@.subrange(0, tail@.len() as int) =~= tail@);
    }
}

/// `a` followed by `b`.
pub fn concat(a: &[u8], b: &[u8]) -> (out: Vec<u8>)
    ensures
        out@ == a@ + b@,
{
    let mut out = bytes_of(a);
    push_bytes(&mut out, b);
    out
}

/// The ASCII digit for a value below ten.
pub open spec fn digit(d: nat) -> u8 {
    (48 + d) as u8
}

/// Decimal rendering of a natural number, most significant digit first,
/// without leading zeros.
pub open spec fn spec_decimal(n: nat) -> Seq<u8>
    decreases n,
{
    if n < 10 {
        seq![digit(n)]
    } else {
        spec_decimal(n / 10).push(digit(n % 10))
    }
}

/// Decimal rendering of an integer, with a leading `-` when negative.
pub open spec fn spec_signed_decimal(v: int) -> Seq<u8> {
    if v < 0 {
        seq![45u8] + spec_decimal((-v) as nat)
    } else {
        spec_decimal(v as nat)
    }
}

/// Render an unsigned integer in decimal.
pub fn format_u64(n: u64) -> (out: Vec<u8>)
    ensures
        out@ == spec_decimal(n as nat),
    decreases n,
{
    if n < 10 {
        let d: u8 = (48u64 + n) as u8;
        let mut out: Vec<u8> = Vec::new();
        out.push(d);
        proof {
            assert(out@ =~= seq![digit(n as nat)]);
        }
        out
    } else {
        let mut out = format_u64(n / 10);
        let d: u8 = (48u64 + n % 10) as u8;
        out.push(d);
        out
    }
}

/// Render a signed integer in decimal, as `{}` formatting does.
pub fn format_i64(v: i64) -> (out: Vec<u8>)
    ensures
        out@ == spec_signed_decimal(v as int),
{
    if v < 0 {
        let magnitude: u64 = if v == i64::MIN {
            0x8000_0000_0000_0000u64
        } else {
            (-v) as u64
        };
        let digits = format_u64(magnitude);
        let mut out: Vec<u8> = Vec::new();
        out.push(45u8);
        push_bytes(&mut out, digits.as_slice());
        proof {
            assert(out@ =~= seq![45u8] + spec_decimal((-(v as int)) as nat));
        }
        out
    } else {
        format_u64(v as u64)
    }
}

/// ASCII lower-case fold of one byte; other bytes are unchanged.
pub open spec fn ascii_lower(b: u8) -> u8 {
    if 65 <= b <= 90 {
        (b + 32) as u8
    } else {
        b
    }
}

/// Equality of two byte strings ignoring ASCII case.
pub open spec fn spec_eq_ignore_ascii_case(a: Seq<u8>, b: Seq<u8>) -> bool {
    &&& a.len() == b.len()
    &&& forall|i: int| 0 <= i < a.len() ==> #[trigger] ascii_lower(a[i]) == ascii_lower(b[i])
}

/// Compare two byte strings ignoring ASCII case, as
/// `str::eq_ignore_ascii_case` does.
pub fn eq_ignore_ascii_case(a: &[u8], b: &[u8]) -> (r: bool)
    ensures
        r == spec_eq_ignore_ascii_case(a@, b@),
{
    if a.len() != b.len() {
        return false;
    }
    let mut i: usize = 0;
    while i < a.len()
        invariant
            a@.len() == b@.len(),
            i <= a@.len(),
            forall|j: int| 0 <= j < i ==> #[trigger] ascii_lower(a@[j]) == ascii_lower(b@[j]),
        decreases a@.len() - i,
    {
        let x = a[i];
        let y = b[i];
        let lx: u8 = if 65u8 <= x && x <= 90u8 { x + 32 } else { x };
        let ly: u8 = if 65u8 <= y && y <= 90u8 { y + 32 } else { y };
        if lx != ly {
            assert(ascii_lower(a@[i as int]) != ascii_lower(b@[i as int]));
            return false;
        }
        i = i + 1;
    }
    true
}

/// Byte-wise equality of two byte strings.
pub fn const_bytes_eq(a: &[u8], b: &[u8]) -> (r: bool)
    ensures
        r == (a@ == b@),
{
    if a.len() != b.len() {
        return false;
    }
    let mut i: usize = 0;
    while i < a.len()
        invariant
            a@.len() == b@.len(),
            i <= a@.len(),
            forall|j: int| 0 <= j < i ==> a@[j] == b@[j],
        decreases a@.len() - i,
    {
        if a[i] != b[i] {
            return false;
        }
        i = i + 1;
    }
    proof {
        assert(a@ =~= b@);
    }
    true
}

/// Whether a byte string contains a NUL byte.
pub fn contains_nul(s: &[u8]) -> (r: bool)
    ensures
        r == (exists|i: int| 0 <= i < s@.len() && s@[i] == 0u8),
{
    let mut i: usize = 0;
    while i < s.len()
        invariant
            i <= s@.len(),
            forall|j: int| 0 <= j < i ==> s@[j] != 0u8,
        decreases s@.len() - i,
    {
        if s[i] == 0u8 {
            return true;
        }
        i = i + 1;
    }
    false
}

} // verus!
