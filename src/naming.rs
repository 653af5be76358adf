use vstd::prelude::*;
use vstd::string::StringExecFns;
use vstd::string::StrSliceExecFns;

verus! {

/// The character of a decimal digit.
pub open spec fn digit_char(d: nat) -> char {
    seq!['0', '1', '2', '3', '4', '5', '6', '7', '8', '9'][d as int]
}

/// The decimal representation of `n`, most significant digit first, with no
/// leading zeros (zero itself is written `0`).
pub open spec fn decimal(n: nat) -> Seq<char>
    decreases n,
{
    if n < 10 {
        seq![digit_char(n)]
    } else {
        decimal(n / 10) + seq![digit_char(n % 10)]
    }
}

/// Appends the decimal representation of `n` to `s`.
fn push_decimal(s: &mut String, n: usize)
    ensures
        final(s)@ == old(s)@ + decimal(n as nat),
    decreases n,
{
    if n >= 10 {
        push_decimal(s, n / 10);
    }
    let d: usize = n % 10;
    let digits: &str = "0123456789";
    proof {
        reveal_strlit("0123456789");
    }
    let digit: &str = digits.substring_char(d, d + 1);
    s.append(digit);
    proof {
        assert(digit@ =~= seq![digit_char(d as nat)]);
        if n < 10 {
            assert(d == n);
        }
    }
    assert(s@ =~= old(s)@ + decimal(n as nat));
}

/// A name made of `prefix` followed by the decimal index `i` (`arg0`, `ptr12`).
pub fn indexed_name(prefix: &str, i: usize) -> (r: String)
    ensures
        r@ == prefix@ + decimal(i as nat),
{
    let mut s = String::from_str(prefix);
    push_decimal(&mut s, i);
    s
}

} // verus!
