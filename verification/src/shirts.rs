//! The shirt-company giveaway: a user preference wins, otherwise the most
//! stocked color is handed out.

use vstd::prelude::*;

verus! {

/// The two colors the company stocks.
#[derive(Debug, Clone, Copy, PartialEq, Eq, Structural)]
pub enum ShirtColor {
    Red,
    Blue,
}

/// How many shirts of color `c` the sequence holds.
pub open spec fn count_color(s: Seq<ShirtColor>, c: ShirtColor) -> nat
    decreases s.len(),
{
    if s.len() == 0 {
        0
    } else {
        count_color(s.drop_last(), c) + (if s.last() == c {
            1nat
        } else {
            0nat
        })
    }
}

proof fn lemma_count_color_push(s: Seq<ShirtColor>, c: ShirtColor, v: ShirtColor)
    ensures
        count_color(s.push(v), c) == count_color(s, c) + (if v == c {
            1nat
        } else {
            0nat
        }),
{
    assert(s.push(v).drop_last() =~= s);
    assert(s.push(v).last() == v);
}

/// The color the giveaway falls back to: red only when strictly more red
/// shirts than blue ones are in stock.
pub open spec fn spec_most_stocked(s: Seq<ShirtColor>) -> ShirtColor {
    if count_color(s, ShirtColor::Red) > count_color(s, ShirtColor::Blue) {
        ShirtColor::Red
    } else {
        ShirtColor::Blue
    }
}

/// The company's stock of shirts.
pub struct Inventory {
    pub shirts: Vec<ShirtColor>,
}

impl Inventory {
    /// The color with the most shirts in stock; blue wins a tie.
    pub fn most_stocked(&self) -> (r: ShirtColor)
        ensures
            r == spec_most_stocked(self.shirts@),
    {
        let mut num_red: usize = 0;
        let mut num_blue: usize = 0;
        let mut i: usize = 0;
        while i < self.shirts.len()
            invariant
                i <= self.shirts@.len(),
                num_red == count_color(self.shirts@.take(i as int), ShirtColor::Red),
                num_blue == count_color(self.shirts@.take(i as int), ShirtColor::Blue),
                num_red <= i,
                num_blue <= i,
            decreases self.shirts@.len() - i,
        {
            proof {
                assert(self.shirts@.take(i + 1) =~= self.shirts@.take(i as int).push(
                    self.shirts@[i as int],
                ));
                lemma_count_color_push(self.shirts@.take(i as int), ShirtColor::Red, self.shirts@[i as int]);
                lemma_count_color_push(self.shirts@.take(i as int), ShirtColor::Blue, self.shirts@[i as int]);
            }
            match self.shirts[i] {
                ShirtColor::Red => {
                    num_red = num_red + 1;
                },
                ShirtColor::Blue => {
                    num_blue = num_blue + 1;
                },
            }
            i = i + 1;
        }
        proof {
            assert(self.shirts@.take(i as int) =~= self.shirts@);
        }
        if num_red > num_blue {
            ShirtColor::Red
        } else {
            ShirtColor::Blue
        }
    }

    /// The giveaway: a stated preference wins; otherwise the most stocked
    /// color is chosen.
    pub fn giveaway(&self, user_preference: Option<ShirtColor>) -> (r: ShirtColor)
        ensures
            match user_preference {
                Some(c) => r == c,
                None => r == spec_most_stocked(self.shirts@),
            },
    {
        match user_preference {
            Some(c) => c,
            None => self.most_stocked(),
        }
    }
}

} // verus!
