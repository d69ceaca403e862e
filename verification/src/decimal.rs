//! Rendering of unsigned numbers as decimal text, for numeric configuration
//! entries.

use vstd::prelude::*;

verus! {

/// The one-character text of a single decimal digit.
pub open spec fn digit_lit(d: nat) -> Seq<char> {
    if d == 0 {
        "0"@
    } else if d == 1 {
        "1"@
    } else if d == 2 {
        "2"@
    } else if d == 3 {
        "3"@
    } else if d == 4 {
        "4"@
    } else if d == 5 {
        "5"@
    } else if d == 6 {
        "6"@
    } else if d == 7 {
        "7"@
    } else if d == 8 {
        "8"@
    } else {
        "9"@
    }
}

/// The decimal digits of `n`, most significant first, with no leading zeros
/// (and the single digit `0` for zero itself).
pub open spec fn dec_str(n: nat) -> Seq<char>
    decreases n,
{
    if n < 10 {
        digit_lit(n)
    } else {
        dec_str(n / 10) + digit_lit(n % 10)
    }
}

/// The text of a run of digits stored least significant first, rendered most
/// significant first.
spec fn digits_str(ds: Seq<usize>) -> Seq<char>
    decreases ds.len(),
{
    if ds.len() == 0 {
        Seq::empty()
    } else {
        digit_lit(ds.last() as nat) + digits_str(ds.drop_last())
    }
}

fn digit_str(d: usize) -> (s: &'static str)
    requires
        d < 10,
    ensures
        s@ == digit_lit(d as nat),
{
    if d == 0 {
        "0"
    } else if d == 1 {
        "1"
    } else if d == 2 {
        "2"
    } else if d == 3 {
        "3"
    } else if d == 4 {
        "4"
    } else if d == 5 {
        "5"
    } else if d == 6 {
        "6"
    } else if d == 7 {
        "7"
    } else if d == 8 {
        "8"
    } else {
        "9"
    }
}

/// Renders `n` in decimal.
pub fn usize_to_string(n: usize) -> (s: String)
    ensures
        s@ == dec_str(n as nat),
{
    let mut rev: Vec<usize> = Vec::new();
    let mut m: usize = n;
    proof {
        assert(dec_str(n as nat) + Seq::<char>::empty() =~= dec_str(n as nat));
    }
    loop
        invariant_except_break
            dec_str(n as nat) == dec_str(m as nat) + digits_str(rev@),
        invariant
            forall|k: int| 0 <= k < rev@.len() ==> rev@[k] < 10,
        ensures
            dec_str(n as nat) == digits_str(rev@),
        decreases m,
    {
        let d: usize = m % 10;
        let ghost rev0 = rev@;
        rev.push(d);
        proof {
            assert(rev@.drop_last() =~= rev0);
            assert(digits_str(rev@) == digit_lit(d as nat) + digits_str(rev0));
        }
        if m < 10 {
            proof {
                assert(dec_str(m as nat) == digit_lit(d as nat));
                assert(dec_str(n as nat) =~= digit_lit(d as nat) + digits_str(rev0));
            }
            break;
        }
        proof {
            assert(dec_str(m as nat) == dec_str((m / 10) as nat) + digit_lit(d as nat));
            assert((dec_str((m / 10) as nat) + digit_lit(d as nat)) + digits_str(rev0)
                =~= dec_str((m / 10) as nat) + (digit_lit(d as nat) + digits_str(rev0)));
        }
        m = m / 10;
    }
    let mut s = String::new();
    let mut i: usize = rev.len();
    proof {
        assert(rev@.take(rev@.len() as int) =~= rev@);
        assert(Seq::<char>::empty() + digits_str(rev@) =~= digits_str(rev@));
    }
    while i > 0
        invariant
            i <= rev@.len(),
            forall|k: int| 0 <= k < rev@.len() ==> rev@[k] < 10,
            digits_str(rev@) == s@ + digits_str(rev@.take(i as int)),
        decreases i,
    {
        i = i - 1;
        proof {
            assert(rev@.take(i + 1).last() == rev@[i as int]);
            assert(rev@.take(i + 1).drop_last() =~= rev@.take(i as int));
            assert(digits_str(rev@.take(i + 1)) == digit_lit(rev@[i as int] as nat)
                + digits_str(rev@.take(i as int)));
        }
        let c = digit_str(rev[i]);
        let ghost s_before = s@;
        s.append(c);
        proof {
            assert(s@ + digits_str(rev@.take(i as int)) =~= s_before + (digit_lit(
                rev@[i as int] as nat,
            ) + digits_str(rev@.take(i as int))));
        }
    }
    proof {
        assert(rev@.take(0) =~= Seq::<usize>::empty());
        assert(digits_str(rev@.take(0)) == Seq::<char>::empty());
        assert(s@ + Seq::<char>::empty() =~= s@);
    }
    s
}

} // verus!
