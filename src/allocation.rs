use vstd::prelude::*;
use vstd::string::StringSliceAdditionalSpecFns;

verus! {

/// The value of every byte of the target's buffer, so that reads can be checked.
pub const SENTINEL: u8 = 0x0a;

pub open spec fn is_digit(c: u8) -> bool {
    0x30 <= c <= 0x39
}

/// The number that the decimal digits `d` spell.
pub open spec fn digits_value(d: Seq<u8>) -> nat
    decreases d.len(),
{
    if d.len() == 0 {
        0
    } else {
        digits_value(d.drop_last()) * 10 + (d.last() - 0x30) as nat
    }
}

/// The digits of an unsigned decimal, past an optional leading `+`.
pub open spec fn unsigned_digits(s: Seq<u8>) -> Seq<u8> {
    if s.len() > 0 && s[0] == 0x2b {
        s.drop_first()
    } else {
        s
    }
}

/// The byte count that the text `s` gives: one or more decimal digits, after
/// an optional `+`, whose value fits in `usize`.
pub open spec fn spec_byte_count(s: Seq<u8>) -> Option<usize> {
    let d = unsigned_digits(s);
    if d.len() > 0 && (forall|i: int| 0 <= i < d.len() ==> is_digit(#[trigger] d[i]))
        && digits_value(d) <= usize::MAX {
        Some(digits_value(d) as usize)
    } else {
        None
    }
}

/// A prefix of a run of digits is worth no more than the whole run.
proof fn lemma_prefix_value_le(d: Seq<u8>, k: int)
    requires
        0 <= k <= d.len(),
        forall|i: int| 0 <= i < d.len() ==> is_digit(#[trigger] d[i]),
    ensures
        digits_value(d.subrange(0, k)) <= digits_value(d),
    decreases d.len(),
{
    if k < d.len() {
        let p = d.drop_last();
        assert(p.subrange(0, k) == d.subrange(0, k));
        lemma_prefix_value_le(p, k);
    } else {
        assert(d.subrange(0, k) == d);
    }
}

/// Parses the number of bytes that the target is to allocate.
pub fn parse_byte_count(s: &str) -> (r: Option<usize>)
    ensures
        r == spec_byte_count(s.spec_bytes()),
{
    let b = s.as_bytes();
    let ghost sb = b@;
    let start: usize = if b.len() > 0 && b[0] == 0x2b { 1 } else { 0 };
    let ghost d = unsigned_digits(sb);
    assert(d == sb.subrange(start as int, sb.len() as int));
    if start == b.len() {
        return None;
    }
    let mut v: usize = 0;
    let mut i: usize = start;
    while i < b.len()
        invariant
            b@ == sb,
            start <= i <= sb.len(),
            d == sb.subrange(start as int, sb.len() as int),
            d == unsigned_digits(sb),
            sb == s.spec_bytes(),
            forall|j: int| 0 <= j < i - start ==> is_digit(#[trigger] d[j]),
            v == digits_value(d.subrange(0, i - start)),
        decreases b.len() - i,
    {
        let c = b[i];
        if c < 0x30 || c > 0x39 {
            assert(d[i - start] == c);
            assert(!is_digit(d[i - start]));
            assert(spec_byte_count(sb) is None);
            return None;
        }
        let x = (c - 0x30) as usize;
        let ghost k = i - start + 1;
        assert(d.subrange(0, k).drop_last() == d.subrange(0, k - 1));
        assert(digits_value(d.subrange(0, k)) == v * 10 + x);
        if v > (usize::MAX - x) / 10 {
            proof {
                assert(v * 10 + x > usize::MAX) by (nonlinear_arith)
                    requires
                        v > (usize::MAX - x) / 10,
                        x <= 9,
                ;
                if forall|j: int| 0 <= j < d.len() ==> is_digit(#[trigger] d[j]) {
                    lemma_prefix_value_le(d, k);
                    assert(digits_value(d) > usize::MAX);
                }
                assert(spec_byte_count(sb) is None);
            }
            return None;
        }
        v = v * 10 + x;
        i = i + 1;
    }
    assert(d.subrange(0, d.len() as int) == d);
    Some(v)
}

/// The target's buffer: `byte_num` bytes, each holding the sentinel.
pub fn filled_buffer(byte_num: usize) -> (r: Vec<u8>)
    ensures
        r@.len() == byte_num,
        forall|i: int| 0 <= i < byte_num ==> #[trigger] r@[i] == SENTINEL,
{
    vec![SENTINEL; byte_num]
}

} // verus!
