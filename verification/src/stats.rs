//! Money, goal and time of the level being played.

use vstd::prelude::*;
use crate::random::random_word;

verus! {

/// The time that a level lasts, in milliseconds.
pub const LEVEL_DURATION: u32 = 61_000;

/// By how much the step between two goals grows from level 2 to level 9.
pub const GOAL_ADDON_STEP: u32 = 270;

/// Money, goal and time of the level being played.
#[derive(Debug, Clone)]
pub struct LevelStats {
    pub money: u32,
    /// The money that the player must own when the time runs out.
    pub goal: u32,
    /// The step from this goal to the next.
    pub goal_addon: u32,
    pub level: u32,
    /// What is left of the level, in milliseconds.
    pub timer: u32,
    pub is_first_init: bool,
    /// The key of the level in the level table, such as `L3_2`.
    pub real_level_str: String,
}

/// `a + b`, or the largest `u32` where the sum exceeds it.
pub open spec fn saturating_sum(a: int, b: int) -> int {
    if a + b > u32::MAX {
        u32::MAX as int
    } else {
        a + b
    }
}

/// The money owned after `amount` is paid in or, if negative, taken out: the
/// sum, held between zero and the largest `u32`.
pub open spec fn spec_credit(money: int, amount: int) -> int {
    if money + amount < 0 {
        0
    } else if money + amount > u32::MAX {
        u32::MAX as int
    } else {
        money + amount
    }
}

impl LevelStats {
    /// The step to the next goal: it grows by a fixed amount from level 2 to
    /// level 9 and stays as it is otherwise.
    pub open spec fn spec_next_addon(self) -> int {
        if 1 < self.level <= 9 {
            saturating_sum(self.goal_addon as int, GOAL_ADDON_STEP as int)
        } else {
            self.goal_addon as int
        }
    }

    /// The goal of the next level.
    pub open spec fn spec_next_goal(self) -> int {
        saturating_sum(self.goal as int, self.spec_next_addon())
    }

    /// Whether the money owned reaches the goal.
    pub open spec fn spec_reach_goal(self) -> bool {
        self.money >= self.goal
    }

    /// Moves the goal on to that of the next level.
    pub fn update_goal(&mut self)
        ensures
            final(self).goal_addon == old(self).spec_next_addon(),
            final(self).goal == old(self).spec_next_goal(),
            final(self).money == old(self).money,
            final(self).level == old(self).level,
            final(self).timer == old(self).timer,
            final(self).is_first_init == old(self).is_first_init,
            final(self).real_level_str == old(self).real_level_str,
    {
        if self.level > 1 && self.level <= 9 {
            self.goal_addon = self.goal_addon.saturating_add(GOAL_ADDON_STEP);
        }
        self.goal = self.goal.saturating_add(self.goal_addon);
    }

    /// Tells whether the money owned reaches the goal.
    pub fn reach_goal(&self) -> (reached: bool)
        ensures
            reached == self.spec_reach_goal(),
    {
        self.money >= self.goal
    }

    /// Gives the level its full time again.
    pub fn reset_timer(&mut self)
        ensures
            final(self).timer == LEVEL_DURATION,
            final(self).money == old(self).money,
            final(self).goal == old(self).goal,
            final(self).goal_addon == old(self).goal_addon,
            final(self).level == old(self).level,
            final(self).is_first_init == old(self).is_first_init,
            final(self).real_level_str == old(self).real_level_str,
    {
        self.timer = LEVEL_DURATION;
    }

    /// Pays `amount` in or, if negative, takes it out.
    pub fn credit(&mut self, amount: i64)
        ensures
            final(self).money == spec_credit(old(self).money as int, amount as int),
            final(self).goal == old(self).goal,
            final(self).goal_addon == old(self).goal_addon,
            final(self).level == old(self).level,
            final(self).timer == old(self).timer,
            final(self).is_first_init == old(self).is_first_init,
            final(self).real_level_str == old(self).real_level_str,
    {
        let sum: i128 = self.money as i128 + amount as i128;
        self.money = if sum < 0 {
            0
        } else if sum > u32::MAX as i128 {
            u32::MAX
        } else {
            sum as u32
        };
    }
}

impl Default for LevelStats {
    fn default() -> (s: LevelStats)
        ensures
            s.money == 0,
            s.goal == 375,
            s.goal_addon == 275,
            s.level == 1,
            s.timer == LEVEL_DURATION,
            s.is_first_init,
            s.real_level_str@ == "L1_1"@,
    {
        LevelStats {
            money: 0,
            goal: 375,
            goal_addon: 275,
            level: 1,
            timer: LEVEL_DURATION,
            is_first_init: true,
            real_level_str: "L1_1".to_owned(),
        }
    }
}

/// The decimal digit that stands for a number below ten.
pub open spec fn spec_digit(d: nat) -> char {
    if d == 0 {
        '0'
    } else if d == 1 {
        '1'
    } else if d == 2 {
        '2'
    } else if d == 3 {
        '3'
    } else if d == 4 {
        '4'
    } else if d == 5 {
        '5'
    } else if d == 6 {
        '6'
    } else if d == 7 {
        '7'
    } else if d == 8 {
        '8'
    } else {
        '9'
    }
}

/// A number written in decimal, without leading zeros.
pub open spec fn spec_decimal(n: nat) -> Seq<char>
    decreases n,
{
    if n < 10 {
        seq![spec_digit(n)]
    } else {
        spec_decimal(n / 10).push(spec_digit(n % 10))
    }
}

/// The key of a level in the level table: `L`, the number of the layout, `_`
/// and the number of the variant.
pub open spec fn spec_level_key(layout: u32, variant: u32) -> Seq<char> {
    seq!['L'] + spec_decimal(layout as nat) + seq!['_'] + spec_decimal(variant as nat)
}

/// The layout that a level is played on: the first three levels have their
/// own, and from then on the layouts 3 to 9 come round again and again.
pub open spec fn spec_real_level(level: u32) -> int {
    if level <= 3 {
        level as int
    } else {
        (level - 3) % 7 + 3
    }
}

/// The variant that a draw picks: one of three.
pub open spec fn spec_variant(draw: u32) -> int {
    draw % 3 + 1
}

/// Writes the key of a level with `format!`, which writes each number in
/// decimal.
#[verifier::external_body]
fn level_key(layout: u32, variant: u32) -> (key: String)
    ensures
        key@ == spec_level_key(layout, variant),
{
    format!("L{}_{}", layout, variant)
}

/// The layout that a level is played on.
pub fn real_level(level: u32) -> (layout: u32)
    ensures
        layout == spec_real_level(level),
        level >= 1 ==> 1 <= layout <= 9,
{
    if level <= 3 {
        level
    } else {
        (level - 3) % 7 + 3
    }
}

impl LevelStats {
    /// Sets the key of the level from a draw, which picks the variant.
    pub fn set_real_level(&mut self, draw: u32)
        ensures
            final(self).real_level_str@ == spec_level_key(
                spec_real_level(old(self).level) as u32,
                spec_variant(draw) as u32,
            ),
            final(self).money == old(self).money,
            final(self).goal == old(self).goal,
            final(self).goal_addon == old(self).goal_addon,
            final(self).level == old(self).level,
            final(self).timer == old(self).timer,
            final(self).is_first_init == old(self).is_first_init,
    {
        self.real_level_str = level_key(real_level(self.level), draw % 3 + 1);
    }

    /// Sets the key of the level, with a variant drawn at random.
    pub fn calculate_real_level(&mut self)
        ensures
            exists|variant: u32|
                1 <= variant <= 3 && final(self).real_level_str@ == #[trigger] spec_level_key(
                    spec_real_level(old(self).level) as u32,
                    variant,
                ),
            final(self).money == old(self).money,
            final(self).goal == old(self).goal,
            final(self).goal_addon == old(self).goal_addon,
            final(self).level == old(self).level,
            final(self).timer == old(self).timer,
            final(self).is_first_init == old(self).is_first_init,
    {
        let draw = random_word();
        self.set_real_level(draw);
        assert(1 <= spec_variant(draw) <= 3);
    }
}

} // verus!
