//! Small verified text helpers: decimal formatting and prefix tests.

use vstd::prelude::*;
use vstd::string::StrSliceExecFns;
use vstd::string::StringExecFns;
use crate::sig::hex_digit_lower;

verus! {

/// The decimal digits of `n`, most significant first.
pub open spec fn spec_u64_dec(n: nat) -> Seq<char>
    decreases n,
{
    if n < 10 {
        seq![hex_digit_lower(n as u8)]
    } else {
        spec_u64_dec(n / 10) + seq![hex_digit_lower((n % 10) as u8)]
    }
}

/// One decimal digit as a string slice.
fn digit_str(d: u64) -> (r: &'static str)
    requires
        d < 10,
    ensures
        r@ == seq![hex_digit_lower(d as u8)],
{
    proof {
        reveal_strlit("0");
        reveal_strlit("1");
        reveal_strlit("2");
        reveal_strlit("3");
        reveal_strlit("4");
        reveal_strlit("5");
        reveal_strlit("6");
        reveal_strlit("7");
        reveal_strlit("8");
        reveal_strlit("9");
    }
    if d == 0 {
        "0"
    } else if d == 1 {
        "1"
    } else if d == 2 {
        "2"
    } else if d == 3 {
        "3"
    } else if d == 4 {
        "4"
    } else if d == 5 {
        "5"
    } else if d == 6 {
        "6"
    } else if d == 7 {
        "7"
    } else if d == 8 {
        "8"
    } else {
        "9"
    }
}

/// `n` in decimal.
pub fn u64_to_dec(n: u64) -> (r: String)
    ensures
        r@ == spec_u64_dec(n as nat),
    decreases n,
{
    if n < 10 {
        digit_str(n).to_owned()
    } else {
        let head = u64_to_dec(n / 10);
        head.concat(digit_str(n % 10))
    }
}

/// `s` starts with `prefix`.
pub open spec fn spec_has_prefix(s: Seq<char>, prefix: Seq<char>) -> bool {
    prefix.len() <= s.len() && s.take(prefix.len() as int) == prefix
}

pub fn has_prefix(s: &str, prefix: &str) -> (r: bool)
    ensures
        r == spec_has_prefix(s@, prefix@),
{
    let pn = prefix.unicode_len();
    let sn = s.unicode_len();
    if pn > sn {
        proof {
            assert(!spec_has_prefix(s@, prefix@));
        }
        return false;
    }
    let mut eq = true;
    for i in 0..pn
        invariant
            pn == prefix@.len(),
            sn == s@.len(),
            pn <= sn,
            eq == (forall|j: int| 0 <= j < i ==> s@[j] == prefix@[j]),
    {
        let same = s.get_char(i) == prefix.get_char(i);
        eq = eq && same;
    }
    proof {
        if eq {
            assert(s@.take(pn as int) =~= prefix@);
        } else {
            let j = choose|j: int| 0 <= j < pn && s@[j] != prefix@[j];
            assert(s@.take(pn as int)[j] == s@[j]);
        }
    }
    eq
}

} // verus!
