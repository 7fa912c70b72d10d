//! Binary units of information and the compact notation of byte counts.

use crate::decimal::{decimal, decimal_string, digit, lemma_decimal_len, pow10};
use crate::units::{lemma_binary_units, pow1024, EIB, GIB, KIB, MIB, PIB, TIB};
use vstd::prelude::*;
use vstd::string::*;

verus! {

/// Units derived from the byte, in steps of 1024.
#[derive(PartialEq, Eq, Structural, Clone, Copy, Debug)]
pub enum UnitOfInfo {
    KiB,
    MiB,
    GiB,
    TiB,
    PiB,
    EiB,
}

impl UnitOfInfo {
    /// The exponent of 1024 that the unit stands for.
    pub open spec fn exponent(self) -> nat {
        match self {
            UnitOfInfo::KiB => 1,
            UnitOfInfo::MiB => 2,
            UnitOfInfo::GiB => 3,
            UnitOfInfo::TiB => 4,
            UnitOfInfo::PiB => 5,
            UnitOfInfo::EiB => 6,
        }
    }

    /// The number of bytes in one unit.
    pub open spec fn multiplier(self) -> nat {
        pow1024(self.exponent())
    }

    /// The text that names the unit behind a magnitude.
    pub open spec fn suffix(self) -> Seq<char> {
        match self {
            UnitOfInfo::KiB => seq!['K', 'i', 'B'],
            UnitOfInfo::MiB => seq!['M', 'i', 'B'],
            UnitOfInfo::GiB => seq!['G', 'i', 'B'],
            UnitOfInfo::TiB => seq!['T', 'i', 'B'],
            UnitOfInfo::PiB => seq!['P', 'i', 'B'],
            UnitOfInfo::EiB => seq!['E', 'i', 'B'],
        }
    }

    /// The unit in which a byte count of so many decimal digits is shown:
    /// three digit counts per unit, from four digits on. A count of fewer
    /// than four or more than twenty-one digits has no unit.
    pub open spec fn for_digits(digits: nat) -> Option<UnitOfInfo> {
        if 4 <= digits < 7 {
            Some(UnitOfInfo::KiB)
        } else if 7 <= digits < 10 {
            Some(UnitOfInfo::MiB)
        } else if 10 <= digits < 13 {
            Some(UnitOfInfo::GiB)
        } else if 13 <= digits < 16 {
            Some(UnitOfInfo::TiB)
        } else if 16 <= digits < 19 {
            Some(UnitOfInfo::PiB)
        } else if 19 <= digits < 22 {
            Some(UnitOfInfo::EiB)
        } else {
            None
        }
    }

    /// The compact notation of a byte count: the whole number of units that
    /// fit into it, followed by the unit; or the count itself followed by
    /// `B` where it has no unit.
    pub open spec fn formatted(n: nat) -> Seq<char> {
        match Self::for_digits(decimal(n).len()) {
            Some(unit) => decimal(n / unit.multiplier()) + unit.suffix(),
            None => decimal(n) + seq!['B'],
        }
    }

    /// The unit's name as text.
    pub fn symbol(self) -> (text: &'static str)
        ensures
            text@ == self.suffix(),
    {
        proof {
            reveal_strlit("KiB");
            reveal_strlit("MiB");
            reveal_strlit("GiB");
            reveal_strlit("TiB");
            reveal_strlit("PiB");
            reveal_strlit("EiB");
        }
        let text = match self {
            UnitOfInfo::KiB => "KiB",
            UnitOfInfo::MiB => "MiB",
            UnitOfInfo::GiB => "GiB",
            UnitOfInfo::TiB => "TiB",
            UnitOfInfo::PiB => "PiB",
            UnitOfInfo::EiB => "EiB",
        };
        assert(text@ =~= self.suffix());
        text
    }

    /// The unit's name as an owned string.
    pub fn to_string(&self) -> (text: String)
        ensures
            text@ == self.suffix(),
    {
        String::from_str(self.symbol())
    }

    /// The whole number of units `u` that fit into `n` bytes.
    pub fn convert(n: u64, u: Self) -> (units: u64)
        ensures
            units == n as nat / u.multiplier(),
    {
        let m: u64 = u64::from(u);
        proof {
            lemma_from_is_multiplier(u);
        }
        n / m
    }

    /// Writes a byte count in compact notation.
    pub fn format(n: u64) -> (text: String)
        ensures
            text@ == Self::formatted(n as nat),
    {
        let m = digit(n);
        let unit = if 4 <= m && m < 7 {
            Some(UnitOfInfo::KiB)
        } else if 7 <= m && m < 10 {
            Some(UnitOfInfo::MiB)
        } else if 10 <= m && m < 13 {
            Some(UnitOfInfo::GiB)
        } else if 13 <= m && m < 16 {
            Some(UnitOfInfo::TiB)
        } else if 16 <= m && m < 19 {
            Some(UnitOfInfo::PiB)
        } else if 19 <= m && m < 22 {
            Some(UnitOfInfo::EiB)
        } else {
            None
        };
        match unit {
            Some(u) => {
                let mut text = decimal_string(Self::convert(n, u));
                text.append(u.symbol());
                text
            },
            None => {
                let mut text = decimal_string(n);
                proof {
                    reveal_strlit("B");
                }
                text.append("B");
                assert(text@ =~= decimal(n as nat) + seq!['B']);
                text
            },
        }
    }
}

impl From<UnitOfInfo> for u64 {
    fn from(u: UnitOfInfo) -> (bytes: u64) {
        match u {
            UnitOfInfo::KiB => KIB,
            UnitOfInfo::MiB => MIB,
            UnitOfInfo::GiB => GIB,
            UnitOfInfo::TiB => TIB,
            UnitOfInfo::PiB => PIB,
            UnitOfInfo::EiB => EIB,
        }
    }
}

impl vstd::std_specs::convert::FromSpecImpl<UnitOfInfo> for u64 {
    open spec fn obeys_from_spec() -> bool {
        true
    }

    open spec fn from_spec(u: UnitOfInfo) -> u64 {
        match u {
            UnitOfInfo::KiB => KIB,
            UnitOfInfo::MiB => MIB,
            UnitOfInfo::GiB => GIB,
            UnitOfInfo::TiB => TIB,
            UnitOfInfo::PiB => PIB,
            UnitOfInfo::EiB => EIB,
        }
    }
}

/// The number that a unit converts into is the unit's multiplier.
pub proof fn lemma_from_is_multiplier(u: UnitOfInfo)
    ensures
        <u64 as vstd::std_specs::convert::FromSpec<UnitOfInfo>>::from_spec(u) == u.multiplier(),
{
    lemma_binary_units();
}

/// The unit of a byte count follows from its magnitude: below one thousand
/// there is none, then every three further decimal places move to the next
/// unit, and from the twenty-second digit on there is none again.
pub proof fn lemma_unit_by_magnitude(n: nat)
    ensures
        n < pow10(3) ==> UnitOfInfo::for_digits(decimal(n).len()) is None,
        pow10(3) <= n < pow10(6) ==> UnitOfInfo::for_digits(decimal(n).len()) == Some(
            UnitOfInfo::KiB,
        ),
        pow10(6) <= n < pow10(9) ==> UnitOfInfo::for_digits(decimal(n).len()) == Some(
            UnitOfInfo::MiB,
        ),
        pow10(9) <= n < pow10(12) ==> UnitOfInfo::for_digits(decimal(n).len()) == Some(
            UnitOfInfo::GiB,
        ),
        pow10(12) <= n < pow10(15) ==> UnitOfInfo::for_digits(decimal(n).len()) == Some(
            UnitOfInfo::TiB,
        ),
        pow10(15) <= n < pow10(18) ==> UnitOfInfo::for_digits(decimal(n).len()) == Some(
            UnitOfInfo::PiB,
        ),
        pow10(18) <= n < pow10(21) ==> UnitOfInfo::for_digits(decimal(n).len()) == Some(
            UnitOfInfo::EiB,
        ),
        pow10(21) <= n ==> UnitOfInfo::for_digits(decimal(n).len()) is None,
{
    lemma_decimal_len(n, 3);
    lemma_decimal_len(n, 6);
    lemma_decimal_len(n, 9);
    lemma_decimal_len(n, 12);
    lemma_decimal_len(n, 15);
    lemma_decimal_len(n, 18);
    lemma_decimal_len(n, 21);
}

/// Every byte count from one mebibyte up to the largest number of nine
/// digits is written as a whole number of mebibytes, and so ends in `MiB`.
pub proof fn lemma_mebibyte_range(n: u64)
    requires
        1_048_576 <= n <= 999_999_999,
    ensures
        UnitOfInfo::formatted(n as nat) == decimal(n as nat / 1_048_576) + seq!['M', 'i', 'B'],
        seq!['M', 'i', 'B'].is_suffix_of(UnitOfInfo::formatted(n as nat)),
{
    reveal_with_fuel(pow10, 10);
    reveal_with_fuel(pow1024, 3);
    lemma_unit_by_magnitude(n as nat);
    let magnitude = decimal(n as nat / 1_048_576);
    let text = magnitude + seq!['M', 'i', 'B'];
    assert(text.subrange(text.len() - 3, text.len() as int) =~= seq!['M', 'i', 'B']);
}

} // verus!
