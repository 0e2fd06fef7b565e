//! The text form of a run of bytes: a list of two-digit lower-case hex
//! numbers, as in `[00, 1f, ff]`.
use vstd::prelude::*;
use vstd::string::StrSliceExecFns;
use vstd::string::StringExecFns;

verus! {

/// The sixteen hex digits in their order.
pub open spec fn hex_digits() -> Seq<char> {
    "0123456789abcdef"@
}

/// The two hex digits of a byte, the high one first.
pub open spec fn hex_byte(b: u8) -> Seq<char> {
    seq![hex_digits()[b as int / 16], hex_digits()[b as int % 16]]
}

/// The hex forms of `bytes` in their order, with a comma and a space between
/// two of them.
pub open spec fn hex_items(bytes: Seq<u8>) -> Seq<char>
    decreases bytes.len(),
{
    if bytes.len() == 0 {
        Seq::empty()
    } else if bytes.len() == 1 {
        hex_byte(bytes[0])
    } else {
        hex_items(bytes.drop_last()) + seq![',', ' '] + hex_byte(bytes.last())
    }
}

/// The text form of `bytes`: their hex forms between square brackets.
pub open spec fn hex_list(bytes: Seq<u8>) -> Seq<char> {
    seq!['['] + hex_items(bytes) + seq![']']
}

/// Appends the two hex digits of `b` to `out`.
fn push_hex_byte(out: &mut String, b: u8)
    ensures
        final(out)@ == old(out)@ + hex_byte(b),
{
    let digits = "0123456789abcdef";
    proof {
        reveal_strlit("0123456789abcdef");
    }
    let hi: usize = (b / 16) as usize;
    let lo: usize = (b % 16) as usize;
    out.append(digits.substring_char(hi, hi + 1));
    out.append(digits.substring_char(lo, lo + 1));
    assert(out@ =~= old(out)@ + hex_byte(b));
}

/// Writes `bytes` out as text.
pub fn hex_string(bytes: &[u8]) -> (s: String)
    ensures
        s@ == hex_list(bytes@),
{
    let mut out = String::from_str("[");
    proof {
        reveal_strlit("[");
        reveal_strlit(", ");
        reveal_strlit("]");
    }
    let mut i: usize = 0;
    while i < bytes.len()
        invariant
            i <= bytes@.len(),
            out@ == seq!['['] + hex_items(bytes@.take(i as int)),
            ", "@ == seq![',', ' '],
        decreases bytes@.len() - i,
    {
        let ghost before = out@;
        if i > 0 {
            out.append(", ");
        }
        push_hex_byte(&mut out, bytes[i]);
        proof {
            let done = bytes@.take(i + 1);
            assert(done.drop_last() =~= bytes@.take(i as int));
            assert(done.last() == bytes@[i as int]);
            assert(out@ =~= seq!['['] + hex_items(done));
        }
        i += 1;
    }
    assert(bytes@.take(i as int) =~= bytes@);
    out.append("]");
    out
}

} // verus!
