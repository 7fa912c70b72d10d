//! Multipliers of the binary and decimal units of information.

use vstd::prelude::*;

verus! {

pub const KIB: u64 = 1_024;

pub const MIB: u64 = 1_048_576;

pub const GIB: u64 = 1_073_741_824;

pub const TIB: u64 = 1_099_511_627_776;

pub const PIB: u64 = 1_125_899_906_842_624;

pub const EIB: u64 = 1_152_921_504_606_846_976;

pub const KB: u64 = 1_000;

pub const MB: u64 = 1_000_000;

pub const GB: u64 = 1_000_000_000;

pub const TB: u64 = 1_000_000_000_000;

pub const PB: u64 = 1_000_000_000_000_000;

pub const EB: u64 = 1_000_000_000_000_000_000;

/// The power of 1024 with the given exponent.
pub open spec fn pow1024(exponent: nat) -> nat
    decreases exponent,
{
    if exponent == 0 {
        1
    } else {
        1024 * pow1024((exponent - 1) as nat)
    }
}

/// Each binary constant is the power of 1024 that its name stands for.
pub proof fn lemma_binary_units()
    ensures
        KIB == pow1024(1),
        MIB == pow1024(2),
        GIB == pow1024(3),
        TIB == pow1024(4),
        PIB == pow1024(5),
        EIB == pow1024(6),
{
    reveal_with_fuel(pow1024, 7);
}

} // verus!
