//! The values of the shared counter and how they are written into a record.
//!
//! The counter itself is an atomic cell that all request handlers share. A
//! counting request adds one to the cell and reports the value it left there.

use vstd::prelude::*;

verus! {

/// The value that a counting request leaves in a cell that held `previous`.
/// The cell wraps around after its largest value.
pub open spec fn count_after(previous: u64) -> u64 {
    if previous == u64::MAX {
        0
    } else {
        (previous + 1) as u64
    }
}

/// The ASCII digit for `digit`, which is below ten.
pub open spec fn digit_byte(digit: nat) -> u8 {
    (48 + digit) as u8
}

/// `value` in decimal, as ASCII digits, without leading zeros.
pub open spec fn decimal(value: nat) -> Seq<u8>
    decreases value,
{
    if value < 10 {
        seq![digit_byte(value)]
    } else {
        decimal(value / 10).push(digit_byte(value % 10))
    }
}

/// The number that a string of ASCII digits stands for.
pub open spec fn decimal_value(digits: Seq<u8>) -> nat
    decreases digits.len(),
{
    if digits.len() == 0 {
        0
    } else {
        (decimal_value(digits.drop_last()) * 10 + (digits.last() - 48)) as nat
    }
}

/// Reading back what [`decimal`] wrote gives the number again.
pub proof fn lemma_decimal_round_trip(value: nat)
    ensures
        decimal_value(decimal(value)) == value,
    decreases value,
{
    if value < 10 {
        let digits = decimal(value);
        assert(digits.drop_last().len() == 0);
        assert(decimal_value(digits.drop_last()) == 0);
    } else {
        lemma_decimal_round_trip(value / 10);
        let digits = decimal(value);
        assert(digits.drop_last() == decimal(value / 10));
        assert(digits.last() == digit_byte(value % 10));
    }
}

/// Different numbers are written differently.
pub proof fn lemma_decimal_injective(a: nat, b: nat)
    requires
        decimal(a) == decimal(b),
    ensures
        a == b,
{
    lemma_decimal_round_trip(a);
    lemma_decimal_round_trip(b);
}

/// The value that a counting request reports after it found `previous`.
pub fn next_count(previous: u64) -> (next: u64)
    ensures
        next == count_after(previous),
{
    previous.wrapping_add(1)
}

/// Writes `value` in decimal.
pub fn render_decimal(value: u64) -> (digits: Vec<u8>)
    ensures
        digits@ == decimal(value as nat),
    decreases value,
{
    if value < 10 {
        let mut digits: Vec<u8> = Vec::new();
        digits.push(48 + value as u8);
        assert(digits@ =~= decimal(value as nat));
        digits
    } else {
        let mut digits = render_decimal(value / 10);
        digits.push(48 + (value % 10) as u8);
        digits
    }
}

} // verus!
