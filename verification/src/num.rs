//! Decimal numerals.
//!
//! Build ordinals arrive from the provider as decimal strings and must be
//! compared as integers, not lexically; build identifiers must be rendered
//! back into request paths. Both directions are defined against one
//! mathematical reading of a digit string, `dec_value`.

use vstd::prelude::*;
use vstd::string::StrSliceExecFns;
use vstd::string::StringExecFns;

verus! {

/// A decimal digit character.
pub open spec fn is_dec_digit(c: char) -> bool {
    '0' as int <= c as int <= '9' as int
}

/// The value of one digit character.
pub open spec fn digit_val(c: char) -> nat {
    (c as int - '0' as int) as nat
}

/// The digit character for a value below ten.
pub open spec fn digit_char(d: nat) -> char {
    if d == 0 {
        '0'
    } else if d == 1 {
        '1'
    } else if d == 2 {
        '2'
    } else if d == 3 {
        '3'
    } else if d == 4 {
        '4'
    } else if d == 5 {
        '5'
    } else if d == 6 {
        '6'
    } else if d == 7 {
        '7'
    } else if d == 8 {
        '8'
    } else {
        '9'
    }
}

/// A non-empty, all-digit string: the only shape a build ordinal may take.
pub open spec fn is_dec(s: Seq<char>) -> bool {
    s.len() > 0 && forall|i: int| 0 <= i < s.len() ==> is_dec_digit(s[i])
}

/// The integer a digit string denotes, most significant digit first.
pub open spec fn dec_value(s: Seq<char>) -> nat
    decreases s.len(),
{
    if s.len() == 0 {
        0
    } else {
        dec_value(s.drop_last()) * 10 + digit_val(s.last())
    }
}

/// The canonical decimal rendering of an integer, without leading zeros.
pub open spec fn dec_repr(n: nat) -> Seq<char>
    decreases n,
{
    if n < 10 {
        seq![digit_char(n)]
    } else {
        dec_repr(n / 10) + seq![digit_char(n % 10)]
    }
}

/// A longer digit string never denotes less than one of its prefixes.
proof fn lemma_dec_value_prefix_le(s: Seq<char>, i: int)
    requires
        0 <= i <= s.len(),
    ensures
        dec_value(s.subrange(0, i)) <= dec_value(s),
    decreases s.len() - i,
{
    if i == s.len() {
        assert(s.subrange(0, i) =~= s);
    } else {
        let shorter = s.subrange(0, i);
        let longer = s.subrange(0, i + 1);
        assert(longer.drop_last() =~= shorter);
        assert(dec_value(longer) == dec_value(shorter) * 10 + digit_val(longer.last()));
        lemma_dec_value_prefix_le(s, i + 1);
    }
}

/// Reads a build ordinal. Returns the denoted integer exactly when the
/// string is a non-empty run of decimal digits whose value fits in a `u64`.
pub fn parse_dec_u64(s: &str) -> (r: Option<u64>)
    ensures
        match r {
            Some(n) => is_dec(s@) && n == dec_value(s@),
            None => !is_dec(s@) || dec_value(s@) > u64::MAX,
        },
{
    let len = s.unicode_len();
    if len == 0 {
        return None;
    }
    let mut i: usize = 0;
    let mut acc: u64 = 0;
    while i < len
        invariant
            0 < len == s@.len(),
            i <= len,
            forall|j: int| 0 <= j < i ==> is_dec_digit(s@[j]),
            acc == dec_value(s@.subrange(0, i as int)),
        decreases len - i,
    {
        let c = s.get_char(i);
        let u = c as u32;
        if u < 48 || u > 57 {
            assert(!is_dec_digit(s@[i as int]));
            return None;
        }
        let d = (u - 48) as u64;
        proof {
            assert(s@.subrange(0, i + 1).drop_last() =~= s@.subrange(0, i as int));
            assert(s@.subrange(0, i + 1).last() == s@[i as int]);
            assert(digit_val(s@[i as int]) == d);
        }
        let grown = match acc.checked_mul(10) {
            Some(m) => m.checked_add(d),
            None => None,
        };
        match grown {
            Some(v) => {
                acc = v;
            }
            None => {
                proof {
                    assert(dec_value(s@.subrange(0, i + 1)) > u64::MAX);
                    if is_dec(s@) {
                        lemma_dec_value_prefix_le(s@, i + 1);
                    }
                }
                return None;
            }
        }
        i = i + 1;
    }
    proof {
        assert(s@.subrange(0, len as int) =~= s@);
    }
    Some(acc)
}

/// The digit character for a value below ten, as a borrowed string.
fn digit_str(d: u64) -> (r: &'static str)
    requires
        d < 10,
    ensures
        r@ == seq![digit_char(d as nat)],
{
    proof {
        reveal_strlit("0");
        reveal_strlit("1");
        reveal_strlit("2");
        reveal_strlit("3");
        reveal_strlit("4");
        reveal_strlit("5");
        reveal_strlit("6");
        reveal_strlit("7");
        reveal_strlit("8");
        reveal_strlit("9");
    }
    let r: &'static str = if d == 0 {
        "0"
    } else if d == 1 {
        "1"
    } else if d == 2 {
        "2"
    } else if d == 3 {
        "3"
    } else if d == 4 {
        "4"
    } else if d == 5 {
        "5"
    } else if d == 6 {
        "6"
    } else if d == 7 {
        "7"
    } else if d == 8 {
        "8"
    } else {
        "9"
    };
    proof {
        assert(r@ =~= seq![digit_char(d as nat)]);
    }
    r
}

/// Renders an integer in decimal, for interpolation into a request path.
/// The result is the canonical numeral: all digits, and it parses back to
/// the number it was made from.
pub fn u64_to_dec(n: u64) -> (r: String)
    ensures
        r@ == dec_repr(n as nat),
        is_dec(r@),
        dec_value(r@) == n,
    decreases n,
{
    if n < 10 {
        let r = String::from_str(digit_str(n));
        proof {
            assert(dec_value(Seq::<char>::empty()) == 0);
            assert(r@.drop_last() =~= Seq::<char>::empty());
            assert(r@.last() == digit_char(n as nat));
            assert(dec_value(r@) == digit_val(digit_char(n as nat)));
        }
        r
    } else {
        proof {
            assert(n / 10 < n) by (nonlinear_arith)
                requires
                    n >= 10,
            ;
        }
        let mut prefix = u64_to_dec(n / 10);
        let ghost before = prefix@;
        prefix.append(digit_str(n % 10));
        proof {
            assert(prefix@.drop_last() =~= before);
            assert(prefix@.last() == digit_char((n % 10) as nat));
            assert(dec_value(prefix@) == dec_value(before) * 10 + digit_val(
                digit_char((n % 10) as nat),
            ));
            assert(forall|i: int|
                0 <= i < prefix@.len() ==> is_dec_digit(#[trigger] prefix@[i])) by {
                assert(forall|i: int| 0 <= i < before.len() ==> prefix@[i] == before[i]);
            }
        }
        prefix
    }
}

} // verus!
