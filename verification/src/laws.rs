//! Laws the library's contracts obey: offsetting by zero is the identity,
//! offsets compose by addition, and the decimal rendering of a timestamp
//! determines the timestamp.

use vstd::prelude::*;
use crate::decimal::{dec_digits, dec_int, digit_char};
use crate::ops::offset_result;

verus! {

/// A zero offset leaves a timestamp unchanged.
pub proof fn lemma_offset_identity(t: int)
    ensures
        offset_result(t, 0) == t,
{
}

/// Applying an offset of `o1` and then one of `o2` lands on the same
/// timestamp as applying `o1 + o2` at once.
pub proof fn lemma_offset_compose(t: int, o1: int, o2: int)
    ensures
        offset_result(offset_result(t, o1), o2) == offset_result(t, o1 + o2),
{
}

proof fn lemma_digit_char_injective(d1: int, d2: int)
    requires
        0 <= d1 < 10,
        0 <= d2 < 10,
        digit_char(d1) == digit_char(d2),
    ensures
        d1 == d2,
{
}

proof fn lemma_dec_digits_len(n: nat)
    ensures
        dec_digits(n).len() >= 1,
        n < 10 <==> dec_digits(n).len() == 1,
    decreases n,
{
    if n >= 10 {
        lemma_dec_digits_len(n / 10);
    }
}

proof fn lemma_dec_digits_first_digit(n: nat)
    ensures
        exists|d: int| 0 <= d < 10 && dec_digits(n)[0] == digit_char(d),
    decreases n,
{
    if n < 10 {
        assert(dec_digits(n)[0] == digit_char(n as int));
    } else {
        lemma_dec_digits_first_digit(n / 10);
        let d = choose|d: int| 0 <= d < 10 && dec_digits(n / 10)[0] == digit_char(d);
        lemma_dec_digits_len(n / 10);
        assert(dec_digits(n)[0] == dec_digits(n / 10)[0]);
        assert(dec_digits(n)[0] == digit_char(d));
    }
}

proof fn lemma_dec_digits_injective(a: nat, b: nat)
    requires
        dec_digits(a) == dec_digits(b),
    ensures
        a == b,
    decreases a,
{
    lemma_dec_digits_len(a);
    lemma_dec_digits_len(b);
    if a < 10 && b < 10 {
        assert(dec_digits(a)[0] == digit_char(a as int));
        assert(dec_digits(b)[0] == digit_char(b as int));
        lemma_digit_char_injective(a as int, b as int);
    } else if a >= 10 && b >= 10 {
        assert(dec_digits(a).last() == digit_char((a % 10) as int));
        assert(dec_digits(b).last() == digit_char((b % 10) as int));
        lemma_digit_char_injective((a % 10) as int, (b % 10) as int);
        assert(dec_digits(a).drop_last() =~= dec_digits(a / 10));
        assert(dec_digits(b).drop_last() =~= dec_digits(b / 10));
        assert(a / 10 < a) by (nonlinear_arith)
            requires
                a >= 10,
        ;
        lemma_dec_digits_injective(a / 10, b / 10);
        assert(a == 10 * (a / 10) + a % 10);
        assert(b == 10 * (b / 10) + b % 10);
    } else {
        assert(false);
    }
}

proof fn lemma_dec_digits_no_minus(n: nat)
    ensures
        dec_digits(n)[0] != '-',
{
    lemma_dec_digits_first_digit(n);
    let d = choose|d: int| 0 <= d < 10 && dec_digits(n)[0] == digit_char(d);
    assert(digit_char(d) != '-');
}

/// The decimal rendering determines the timestamp: two timestamps that
/// render to the same text are equal.
pub proof fn lemma_dec_int_injective(a: int, b: int)
    requires
        dec_int(a) == dec_int(b),
    ensures
        a == b,
{
    if a < 0 && b < 0 {
        assert((seq!['-'] + dec_digits((-a) as nat)).drop_first() =~= dec_digits((-a) as nat));
        assert((seq!['-'] + dec_digits((-b) as nat)).drop_first() =~= dec_digits((-b) as nat));
        lemma_dec_digits_injective((-a) as nat, (-b) as nat);
    } else if a >= 0 && b >= 0 {
        lemma_dec_digits_injective(a as nat, b as nat);
    } else if a < 0 {
        assert(dec_int(a)[0] == '-');
        lemma_dec_digits_no_minus(b as nat);
        assert(false);
    } else {
        assert(dec_int(b)[0] == '-');
        lemma_dec_digits_no_minus(a as nat);
        assert(false);
    }
}

} // verus!
