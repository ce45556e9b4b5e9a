//! Percent-encoding over the fixed character set the alert API expects:
//! every byte that is not alphanumeric and not one of `*`, `-`, `.`, `_`
//! is written as `%` followed by two uppercase hex digits.

use vstd::prelude::*;

verus! {

/// Bytes that are left unescaped: ASCII alphanumerics and `*`, `-`, `.`, `_`.
pub open spec fn spec_is_unreserved_byte(b: u8) -> bool {
    ||| 48 <= b <= 57  // '0' ..= '9'
    ||| 65 <= b <= 90  // 'A' ..= 'Z'
    ||| 97 <= b <= 122  // 'a' ..= 'z'
    ||| b == 42  // '*'
    ||| b == 45  // '-'
    ||| b == 46  // '.'
    ||| b == 95  // '_'
}

/// The uppercase hex digit for a value below sixteen.
pub open spec fn spec_hex_digit(n: int) -> u8
    recommends
        0 <= n < 16,
{
    if n < 10 {
        (48 + n) as u8  // '0' ..= '9'
    } else {
        (55 + n) as u8  // 'A' ..= 'F'
    }
}

/// The encoding of one byte: itself if unreserved, else `%` and two
/// uppercase hex digits.
pub open spec fn spec_encode_byte(b: u8) -> Seq<u8> {
    if spec_is_unreserved_byte(b) {
        seq![b]
    } else {
        seq![37u8, spec_hex_digit(b as int / 16), spec_hex_digit(b as int % 16)]
    }
}

/// The percent-encoding of a whole byte string.
pub open spec fn spec_percent_encode(s: Seq<u8>) -> Seq<u8>
    decreases s.len(),
{
    if s.len() == 0 {
        Seq::empty()
    } else {
        spec_encode_byte(s[0]) + spec_percent_encode(s.skip(1))
    }
}

/// Encoding one more byte at the end extends the encoding at the end.
pub proof fn lemma_percent_encode_snoc(s: Seq<u8>, b: u8)
    ensures
        spec_percent_encode(s.push(b)) == spec_percent_encode(s) + spec_encode_byte(b),
    decreases s.len(),
{
    let pushed = s.push(b);
    if s.len() == 0 {
        assert(pushed[0] == b);
        assert(pushed.skip(1) =~= Seq::<u8>::empty());
        assert(spec_percent_encode(Seq::<u8>::empty()) == Seq::<u8>::empty());
        assert(spec_percent_encode(pushed) =~= spec_percent_encode(s) + spec_encode_byte(b));
    } else {
        assert(pushed[0] == s[0]);
        assert(pushed.skip(1) =~= s.skip(1).push(b));
        lemma_percent_encode_snoc(s.skip(1), b);
        assert(spec_percent_encode(pushed) =~= spec_percent_encode(s) + spec_encode_byte(b));
    }
}

/// Exec check for the unescaped set.
pub fn is_unreserved_byte(b: u8) -> (r: bool)
    ensures
        r == spec_is_unreserved_byte(b),
{
    (48 <= b && b <= 57) || (65 <= b && b <= 90) || (97 <= b && b <= 122) || b == 42 || b == 45
        || b == 46 || b == 95
}

/// Exec uppercase hex digit.
pub fn hex_digit(n: u8) -> (r: u8)
    requires
        n < 16,
    ensures
        r == spec_hex_digit(n as int),
{
    if n < 10 {
        48 + n
    } else {
        55 + n
    }
}

/// Percent-encode `input` and append the result to `out`.
pub fn percent_encode_into(out: &mut Vec<u8>, input: &Vec<u8>)
    ensures
        final(out)@ == old(out)@ + spec_percent_encode(input@),
{
    let ghost base = out@;
    let mut i: usize = 0;
    while i < input.len()
        invariant
            i <= input@.len(),
            out@ == base + spec_percent_encode(input@.subrange(0, i as int)),
        decreases input@.len() - i,
    {
        let b = input[i];
        proof {
            assert(input@.subrange(0, i + 1 as int) =~= input@.subrange(0, i as int).push(b));
            lemma_percent_encode_snoc(input@.subrange(0, i as int), b);
        }
        if is_unreserved_byte(b) {
            out.push(b);
        } else {
            out.push(37);
            out.push(hex_digit(b / 16));
            out.push(hex_digit(b % 16));
        }
        proof {
            assert(out@ =~= base + spec_percent_encode(input@.subrange(0, i + 1 as int)));
        }
        i = i + 1;
    }
    proof {
        assert(input@.subrange(0, input@.len() as int) =~= input@);
    }
}

/// Percent-encode a whole byte string.
pub fn percent_encode(input: &Vec<u8>) -> (r: Vec<u8>)
    ensures
        r@ == spec_percent_encode(input@),
{
    let mut out: Vec<u8> = Vec::new();
    percent_encode_into(&mut out, input);
    out
}

} // verus!
