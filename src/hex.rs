use vstd::prelude::*;

verus! {

/// The lower-case hexadecimal digit for `d < 16`.
pub open spec fn hex_char(d: nat) -> char {
    if d < 10 {
        ('0' as u8 + d) as char
    } else {
        ('a' as u8 + (d - 10)) as char
    }
}

/// The lower-case hexadecimal digits of `n`, most significant first, without
/// leading zeros (zero itself is one digit).
pub open spec fn hex_digits(n: nat) -> Seq<char>
    decreases n,
{
    if n < 16 {
        seq![hex_char(n)]
    } else {
        hex_digits(n / 16).push(hex_char(n % 16))
    }
}

fn append_hex(out: &mut String, n: u64)
    ensures
        final(out)@ == old(out)@ + hex_digits(n as nat),
    decreases n,
{
    if n >= 16 {
        append_hex(out, n / 16);
    }
    let d: u64 = n % 16;
    proof {
        reveal_strlit("0123456789abcdef");
    }
    let digits = "0123456789abcdef";
    let digit = digits.substring_char(d as usize, d as usize + 1);
    assert(digit@ =~= seq![hex_char(d as nat)]) by {
        assert(digits@[d as int] == hex_char(d as nat));
    }
    out.append(digit);
    assert(final(out)@ =~= old(out)@ + hex_digits(n as nat));
}

/// An address as `0x` followed by its lower-case hexadecimal digits.
pub fn hex_address(n: u64) -> (r: String)
    ensures
        r@ == seq!['0', 'x'] + hex_digits(n as nat),
{
    proof {
        reveal_strlit("0x");
    }
    let mut s = String::from_str("0x");
    append_hex(&mut s, n);
    s
}

} // verus!
