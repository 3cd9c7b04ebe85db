//! Currency amounts and coin pouches.
//!
//! One Dukat is ten Silber, one Silber ten Heller, one Heller ten
//! Kreuzer; every amount is carried exactly, in Kreuzer.  A pouch of
//! coins (`Coins`) is a concrete denomination of an amount, with each
//! denomination drawn at random among all splits that sum exactly to
//! the amount.

use vstd::prelude::*;

use vstd::arithmetic::div_mod::{lemma_div_is_ordered, lemma_fundamental_div_mod};

use crate::rng::{fresh_rng, rand_below};

verus! {

/// The character of one decimal digit.
pub open spec fn digit_char(d: int) -> char {
    if d == 0 {
        '0'
    } else if d == 1 {
        '1'
    } else if d == 2 {
        '2'
    } else if d == 3 {
        '3'
    } else if d == 4 {
        '4'
    } else if d == 5 {
        '5'
    } else if d == 6 {
        '6'
    } else if d == 7 {
        '7'
    } else if d == 8 {
        '8'
    } else {
        '9'
    }
}

/// The decimal digits of a nonnegative number, most significant first.
pub open spec fn dec_digits(n: int) -> Seq<char>
    recommends
        n >= 0,
    decreases n,
{
    if n < 10 {
        seq![digit_char(n)]
    } else {
        dec_digits(n / 10).push(digit_char(n % 10))
    }
}

/// One decimal digit as a string.
fn digit_string(d: u64) -> (s: String)
    requires
        d < 10,
    ensures
        s@ == seq![digit_char(d as int)],
{
    let t: &str = if d == 0 {
        "0"
    } else if d == 1 {
        "1"
    } else if d == 2 {
        "2"
    } else if d == 3 {
        "3"
    } else if d == 4 {
        "4"
    } else if d == 5 {
        "5"
    } else if d == 6 {
        "6"
    } else if d == 7 {
        "7"
    } else if d == 8 {
        "8"
    } else {
        "9"
    };
    proof {
        reveal_strlit("0");
        reveal_strlit("1");
        reveal_strlit("2");
        reveal_strlit("3");
        reveal_strlit("4");
        reveal_strlit("5");
        reveal_strlit("6");
        reveal_strlit("7");
        reveal_strlit("8");
        reveal_strlit("9");
        assert(t@ =~= seq![digit_char(d as int)]);
    }
    String::from_str(t)
}

/// The decimal rendering of a number, exactly as [`dec_digits`] says.
pub fn dec_string(n: u64) -> (s: String)
    ensures
        s@ == dec_digits(n as int),
    decreases n,
{
    if n < 10 {
        digit_string(n)
    } else {
        let high = dec_string(n / 10);
        let low = digit_string(n % 10);
        let s = high.concat(low.as_str());
        proof {
            assert(s@ =~= dec_digits(n as int));
        }
        s
    }
}

/// An exact currency amount, in Kreuzer.
#[derive(Clone, Copy, Debug, PartialEq, Eq, Structural)]
pub struct Money {
    pub kreuzer: u64,
}

impl Money {
    /// An amount given directly in Kreuzer.
    pub fn from_kreuzer(kreuzer: u32) -> (m: Money)
        ensures
            m.kreuzer == kreuzer,
    {
        Money { kreuzer: kreuzer as u64 }
    }

    /// The text rendering of an amount: the leading denominations are
    /// dropped, the remaining ones read largest first, as in
    /// `"2 D 0 S 7 H 3 K"`.
    pub open spec fn text_spec(self) -> Seq<char> {
        let k = self.kreuzer as int;
        if k < 10 {
            dec_digits(k) + " K"@
        } else if k < 100 {
            dec_digits(k / 10) + " H "@ + dec_digits(k % 10) + " K"@
        } else if k < 1000 {
            dec_digits(k / 100) + " S "@ + dec_digits((k % 100) / 10) + " H "@ + dec_digits(
                k % 10,
            ) + " K"@
        } else {
            dec_digits(k / 1000) + " D "@ + dec_digits((k % 1000) / 100) + " S "@ + dec_digits(
                (k % 100) / 10,
            ) + " H "@ + dec_digits(k % 10) + " K"@
        }
    }

    /// Renders the amount as text, exactly as [`Money::text_spec`]
    /// says.
    pub fn to_text(&self) -> (s: String)
        ensures
            s@ == self.text_spec(),
    {
        proof {
            reveal_strlit(" K");
            reveal_strlit(" H ");
            reveal_strlit(" S ");
            reveal_strlit(" D ");
        }
        let k = self.kreuzer;
        let s = if k < 10 {
            dec_string(k).concat(" K")
        } else if k < 100 {
            dec_string(k / 10).concat(" H ").concat(dec_string(k % 10).as_str()).concat(" K")
        } else if k < 1000 {
            dec_string(k / 100).concat(" S ").concat(
                dec_string((k % 100) / 10).as_str(),
            ).concat(" H ").concat(dec_string(k % 10).as_str()).concat(" K")
        } else {
            dec_string(k / 1000).concat(" D ").concat(
                dec_string((k % 1000) / 100).as_str(),
            ).concat(" S ").concat(dec_string((k % 100) / 10).as_str()).concat(" H ").concat(
                dec_string(k % 10).as_str(),
            ).concat(" K")
        };
        proof {
            assert(s@ =~= self.text_spec());
        }
        s
    }
}

/// The exact worth of a pouch, in Kreuzer.
pub open spec fn coins_value(c: Coins) -> int {
    c.d * 1000 + c.s * 100 + c.h * 10 + c.k
}

/// A pouch of coins: so many Dukaten, Silber, Heller and Kreuzer
/// pieces.
#[derive(Clone, Copy, Debug, PartialEq, Eq, Structural)]
pub struct Coins {
    pub d: u16,
    pub s: u16,
    pub h: u16,
    pub k: u16,
}

/// The largest amount a pouch can hold: 65535 pieces of each
/// denomination.
pub const COINS_MAX_KREUZER: u64 = 72809385;

/// Draws one denomination's piece count: uniformly among all counts
/// that leave a remainder the smaller denominations can still carry
/// (at most `cap`), fit the pouch (at most 65535 pieces) and do not
/// exceed the remaining amount.
fn pick_share(rng: &mut rand::rngs::StdRng, rem: u64, unit: u64, cap: u64) -> (share: u64)
    requires
        1 <= unit <= 1000,
        unit - 1 <= cap,
        cap <= 10000000,
        rem <= cap + 65535 * unit,
    ensures
        share <= 65535,
        share * unit <= rem,
        rem - share * unit <= cap,
{
    let lo: u64 = if rem > cap {
        (rem - cap + unit - 1) / unit
    } else {
        0
    };
    let hi: u64 = {
        let q = rem / unit;
        if q < 65535 {
            q
        } else {
            65535
        }
    };
    proof {
        if rem > cap {
            // The remainder cap leaves room for the rounded-up lower bound.
            assert((rem - cap + unit - 1) as int <= rem as int);
            lemma_div_is_ordered((rem - cap + unit - 1) as int, rem as int, unit as int);
            assert(((rem - cap + unit - 1) as int) / (unit as int) <= 65535) by (nonlinear_arith)
                requires
                    1 <= unit,
                    rem as int - cap as int <= 65535 * (unit as int),
            ;
        }
        assert(lo <= hi);
    }
    let share = lo + rand_below(rng, hi - lo + 1);
    proof {
        lemma_fundamental_div_mod(rem as int, unit as int);
        // share * unit stays below the remaining amount ...
        assert(share * unit <= rem) by (nonlinear_arith)
            requires
                1 <= unit,
                share as int <= (rem as int) / (unit as int),
                rem as int == (unit as int) * ((rem as int) / (unit as int)) + (rem as int) % (
                unit as int),
                (rem as int) % (unit as int) >= 0,
        ;
        // ... and close enough that the rest fits the smaller coins.
        if rem > cap {
            lemma_fundamental_div_mod((rem - cap + unit - 1) as int, unit as int);
            assert(rem - share * unit <= cap) by (nonlinear_arith)
                requires
                    1 <= unit,
                    share as int >= ((rem - cap + unit - 1) as int) / (unit as int),
                    (rem - cap + unit - 1) as int == (unit as int) * (((rem - cap + unit - 1)
                        as int) / (unit as int)) + ((rem - cap + unit - 1) as int) % (unit as int),
                    ((rem - cap + unit - 1) as int) % (unit as int) < unit as int,
                    share * unit <= rem,
            ;
        }
    }
    share
}

impl Coins {
    /// Draws a random pouch worth exactly the given amount.  The
    /// amount must fit a pouch at all: at most
    /// [`COINS_MAX_KREUZER`] Kreuzer, the worth of 65535 pieces of
    /// every denomination.
    pub fn new_random(amount: Money) -> (c: Coins)
        requires
            amount.kreuzer <= COINS_MAX_KREUZER,
        ensures
            coins_value(c) == amount.kreuzer,
    {
        let mut rng = fresh_rng();
        let kr: u64 = amount.kreuzer;
        let d = pick_share(&mut rng, kr, 1000, 7274385);
        let rem1 = kr - d * 1000;
        let s = pick_share(&mut rng, rem1, 100, 720885);
        let rem2 = rem1 - s * 100;
        let h = pick_share(&mut rng, rem2, 10, 65535);
        let k = rem2 - h * 10;
        Coins { d: d as u16, s: s as u16, h: h as u16, k: k as u16 }
    }
}

impl From<Coins> for Money {
    /// The exact worth of a pouch as an amount.
    fn from(value: Coins) -> (m: Money) {
        Money {
            kreuzer: value.d as u64 * 1000 + value.s as u64 * 100 + value.h as u64 * 10
                + value.k as u64,
        }
    }
}

impl vstd::std_specs::convert::FromSpecImpl<Coins> for Money {
    open spec fn obeys_from_spec() -> bool {
        true
    }

    open spec fn from_spec(v: Coins) -> Money {
        Money { kreuzer: coins_value(v) as u64 }
    }
}

} // verus!
