//! Standard base64 with padding, as the container's text form.
use vstd::prelude::*;

verus! {

/// The code point of the symbol for a 6-bit value in the standard alphabet
/// `A-Z a-z 0-9 + /`.
pub open spec fn symbol_code(v: int) -> int {
    if v < 26 {
        65 + v
    } else if v < 52 {
        97 + (v - 26)
    } else if v < 62 {
        48 + (v - 52)
    } else if v == 62 {
        43
    } else {
        47
    }
}

/// The code point of the padding symbol `=`.
pub open spec fn pad_code() -> int {
    61
}

/// Byte `i` of `b`, or zero past its end.
pub open spec fn byte_or_zero(b: Seq<u8>, i: int) -> int {
    if 0 <= i < b.len() {
        b[i] as int
    } else {
        0
    }
}

/// Length of the padded encoding of `n` bytes: four symbols per started
/// group of three bytes.
pub open spec fn encoded_len(n: nat) -> nat {
    ((n + 2) / 3) * 4
}

/// The 6-bit value at symbol position `k` of the encoding of `b`.
pub open spec fn sextet(b: Seq<u8>, k: int) -> int {
    let g = 3 * (k / 4);
    let b0 = byte_or_zero(b, g);
    let b1 = byte_or_zero(b, g + 1);
    let b2 = byte_or_zero(b, g + 2);
    if k % 4 == 0 {
        b0 / 4
    } else if k % 4 == 1 {
        (b0 % 4) * 16 + b1 / 16
    } else if k % 4 == 2 {
        (b1 % 16) * 4 + b2 / 64
    } else {
        b2 % 64
    }
}

/// The code point at position `k` of the padded encoding of `b`: the last
/// group of a length that is not a multiple of three ends in `=` symbols.
pub open spec fn encoded_code(b: Seq<u8>, k: int) -> int {
    let left = b.len() - 3 * (k / 4);
    if (k % 4 == 2 && left < 2) || (k % 4 == 3 && left < 3) {
        pad_code()
    } else {
        symbol_code(sextet(b, k))
    }
}

/// `s` is the standard padded base64 encoding of `b`.
pub open spec fn is_base64_of(b: Seq<u8>, s: Seq<char>) -> bool {
    &&& s.len() == encoded_len(b.len())
    &&& forall|k: int| 0 <= k < s.len() ==> #[trigger] (s[k] as int) == encoded_code(b, k)
}

/// Whether `c` may appear in base64 text at all: a symbol of the alphabet or `=`.
pub open spec fn is_base64_char(c: char) -> bool {
    ('A' <= c <= 'Z') || ('a' <= c <= 'z') || ('0' <= c <= '9') || c == '+' || c == '/' || c == '='
}

/// The bytes that the base64 decoder makes of a text, or `None` where it
/// refuses the text.
pub uninterp spec fn base64_decoded(s: Seq<char>) -> Option<Seq<u8>>;

#[verifier::external_type_specification]
#[verifier::external_body]
pub struct ExDecodeError(base64::DecodeError);

/// Relies on `base64::encode`: the standard alphabet with padding.
#[verifier::external_body]
pub(crate) fn base64_encode(b: &[u8]) -> (r: String)
    ensures
        is_base64_of(b@, r@),
{
    base64::encode(b)
}

/// Relies on `base64::decode` (standard alphabet): a canonical padded
/// encoding decodes to its bytes, and a text that holds a character outside
/// the alphabet and `=` is refused.
#[verifier::external_body]
pub(crate) fn base64_decode(s: &str) -> (r: Result<Vec<u8>, base64::DecodeError>)
    ensures
        r is Ok <==> base64_decoded(s@) is Some,
        r is Ok ==> r->Ok_0@ == base64_decoded(s@)->0,
        forall|b: Seq<u8>| #[trigger] is_base64_of(b, s@) ==> (r is Ok && r->Ok_0@ == b),
        (exists|i: int| 0 <= i < s@.len() && !is_base64_char(#[trigger] s@[i])) ==> r is Err,
{
    base64::decode(s)
}

} // verus!
