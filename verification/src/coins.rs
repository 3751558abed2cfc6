//! A monetary amount counted in copper coins, with gold/silver/copper
//! accessors and the in-game display format.

use crate::text::decimal_i32;
use crate::text::decimal_u32;
use crate::text::spec_decimal;
use crate::text::spec_decimal_signed;
use vstd::prelude::*;
use vstd::string::StringExecFns;

verus! {

/// Truncating division of `a` by positive `b`: rounds toward zero, as
/// the machine division of signed integers does.
pub open spec fn trunc_div(a: int, b: int) -> int
    recommends
        b > 0,
{
    if a >= 0 {
        a / b
    } else {
        -((-a) / b)
    }
}

/// Remainder of the truncating division of `a` by positive `b`; it
/// carries the sign of `a`.
pub open spec fn trunc_rem(a: int, b: int) -> int
    recommends
        b > 0,
{
    a - b * trunc_div(a, b)
}

/// Represents a monetary amount.
///
/// The inner value is the total number of copper coins.
/// In game this is typically instead displayed as a number
/// of gold, silver, and copper coins where every 100 copper coins is
/// one silver coin and every 100 silver coins is one gold coin.
///
/// `display_string` renders this in-game format.
#[derive(Debug, Copy, Clone, PartialEq, Eq, Structural, PartialOrd, Ord, Hash)]
pub struct Coins(pub i32);

/// The in-game rendering of an amount of `v` copper coins: whole gold
/// coins, then leftover silver coins, then leftover copper coins, with
/// leading zero components dropped and the sign only on the leading
/// component.
pub open spec fn spec_coins_display(v: int) -> Seq<char> {
    let g = trunc_div(v, 1_00_00);
    let s = trunc_rem(trunc_div(v, 1_00), 100);
    let c = trunc_rem(v, 100);
    if g == 0 && s == 0 {
        spec_decimal_signed(c) + "c"@
    } else if g == 0 {
        spec_decimal_signed(s) + "s "@ + spec_decimal((if c < 0 {
            -c
        } else {
            c
        }) as nat) + "c"@
    } else {
        spec_decimal_signed(g) + "g "@ + spec_decimal((if s < 0 {
            -s
        } else {
            s
        }) as nat) + "s "@ + spec_decimal((if c < 0 {
            -c
        } else {
            c
        }) as nat) + "c"@
    }
}

impl Coins {
    /// The number of gold coins.
    pub fn gold(self) -> (r: i32)
        ensures
            r as int == trunc_div(self.0 as int, 1_00_00),
    {
        if self.0 >= 0 {
            ((self.0 as u32) / 1_00_00u32) as i32
        } else {
            let magnitude = (-(self.0 as i64)) as u32;
            -((magnitude / 1_00_00u32) as i32)
        }
    }

    /// Creates an amount of currency from a number of gold coins.
    pub fn from_gold(gold: i32) -> (r: Self)
        requires
            -214748 <= gold <= 214747,
        ensures
            r.0 == gold * 1_00_00,
    {
        Coins(gold * 1_00_00)
    }

    /// The number of silver coins.
    pub fn silver(self) -> (r: i8)
        ensures
            r as int == trunc_rem(trunc_div(self.0 as int, 1_00), 100),
    {
        if self.0 >= 0 {
            ((((self.0 as u32) / 1_00u32) % 100u32) as i8)
        } else {
            let magnitude = (-(self.0 as i64)) as u32;
            -((((magnitude / 1_00u32) % 100u32) as i8))
        }
    }

    /// Creates an amount of currency from a number of silver coins.
    pub fn from_silver(silver: i32) -> (r: Self)
        requires
            -21474836 <= silver <= 21474836,
        ensures
            r.0 == silver * 1_00,
    {
        Coins(silver * 1_00)
    }

    /// The number of copper coins.
    pub fn copper(self) -> (r: i8)
        ensures
            r as int == trunc_rem(self.0 as int, 100),
    {
        if self.0 >= 0 {
            (((self.0 as u32) % 100u32) as i8)
        } else {
            let magnitude = (-(self.0 as i64)) as u32;
            -(((magnitude % 100u32) as i8))
        }
    }

    /// Creates an amount of currency from a number of copper coins.
    pub fn from_copper(copper: i32) -> (r: Self)
        ensures
            r.0 == copper,
    {
        Coins(copper)
    }

    /// Renders the amount in the in-game gold/silver/copper format.
    pub fn display_string(&self) -> (r: String)
        ensures
            r@ == spec_coins_display(self.0 as int),
    {
        let g = self.gold();
        let s = self.silver();
        let c = self.copper();
        let c_mag: u32 = if c < 0 {
            (-(c as i32)) as u32
        } else {
            (c as i32) as u32
        };
        let s_mag: u32 = if s < 0 {
            (-(s as i32)) as u32
        } else {
            (s as i32) as u32
        };
        if g == 0 && s == 0 {
            let r = decimal_i32(c as i32).concat("c");
            proof {
                assert(r@ =~= spec_coins_display(self.0 as int));
            }
            r
        } else if g == 0 {
            let r = decimal_i32(s as i32).concat("s ").concat(decimal_u32(c_mag).as_str()).concat(
                "c",
            );
            proof {
                assert(r@ =~= spec_coins_display(self.0 as int));
            }
            r
        } else {
            let r = decimal_i32(g).concat("g ").concat(decimal_u32(s_mag).as_str()).concat(
                "s ",
            ).concat(decimal_u32(c_mag).as_str()).concat("c");
            proof {
                assert(r@ =~= spec_coins_display(self.0 as int));
            }
            r
        }
    }
}

} // verus!
