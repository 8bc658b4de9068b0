//! What the player owns and can do.

use vstd::prelude::*;

verus! {

/// The strength that a player cannot exceed.
pub const MAX_STRENGTH: i32 = 6;

/// The number of dynamite charges that a player cannot exceed.
pub const MAX_DYNAMITE: i32 = 12;

/// How long throwing a dynamite charge takes, in milliseconds.
pub const DYNAMITE_THROW_DURATION: u32 = 390;

/// The player's resources for the whole run.
#[derive(Debug, Clone)]
pub struct PlayerResource {
    /// The number of the current level.
    pub level: i32,
    /// The key of the current level in the level table.
    pub real_level: String,
    pub money: i32,
    pub goal: i32,
    pub goal_add_on: i32,
    /// Multiplies the speed at which the hook comes back.
    pub strength: i32,
    pub dynamite_count: i32,
    pub has_strength_drink: bool,
    pub has_lucky_clover: bool,
    pub has_rock_collectors_book: bool,
    pub has_gem_polish: bool,
    /// Set while a dynamite charge is being thrown.
    pub is_using_dynamite: bool,
    /// What is left of the throw, in milliseconds.
    pub using_dynamite_timer: u32,
}

impl PlayerResource {
    /// Strength and dynamite lie within their caps.
    pub open spec fn inv(self) -> bool {
        &&& 1 <= self.strength <= MAX_STRENGTH
        &&& 0 <= self.dynamite_count <= MAX_DYNAMITE
    }

    /// Tells whether strength and dynamite lie within their caps.
    pub fn check(&self) -> (ok: bool)
        ensures
            ok == self.inv(),
    {
        1 <= self.strength && self.strength <= MAX_STRENGTH && 0 <= self.dynamite_count
            && self.dynamite_count <= MAX_DYNAMITE
    }

    /// The player after `dt` more milliseconds of a throw: the throw ends when
    /// its time is used up, and the time is then wound up for the next one.
    pub open spec fn spec_update_dynamite(self, dt: u32) -> PlayerResource {
        if !self.is_using_dynamite {
            self
        } else if dt >= self.using_dynamite_timer {
            PlayerResource {
                is_using_dynamite: false,
                using_dynamite_timer: DYNAMITE_THROW_DURATION,
                ..self
            }
        } else {
            PlayerResource { using_dynamite_timer: (self.using_dynamite_timer - dt) as u32, ..self }
        }
    }

    /// Lets `dt` milliseconds of a throw pass.
    pub fn update_dynamite(&mut self, dt: u32)
        ensures
            *final(self) == old(self).spec_update_dynamite(dt),
            old(self).inv() ==> final(self).inv(),
    {
        if self.is_using_dynamite {
            if dt >= self.using_dynamite_timer {
                self.is_using_dynamite = false;
                self.using_dynamite_timer = DYNAMITE_THROW_DURATION;
            } else {
                self.using_dynamite_timer = self.using_dynamite_timer - dt;
            }
        }
    }
}

impl Default for PlayerResource {
    fn default() -> (p: PlayerResource)
        ensures
            p.level == 1,
            p.real_level@ == "LDEBUG"@,
            p.money == 375,
            p.goal == 275,
            p.goal_add_on == 0,
            p.strength == 1,
            p.dynamite_count == 0,
            !p.has_strength_drink,
            !p.has_lucky_clover,
            !p.has_rock_collectors_book,
            !p.has_gem_polish,
            !p.is_using_dynamite,
            p.using_dynamite_timer == DYNAMITE_THROW_DURATION,
            p.inv(),
    {
        PlayerResource {
            level: 1,
            real_level: "LDEBUG".to_owned(),
            money: 375,
            goal: 275,
            goal_add_on: 0,
            strength: 1,
            dynamite_count: 0,
            has_strength_drink: false,
            has_lucky_clover: false,
            has_rock_collectors_book: false,
            has_gem_polish: false,
            is_using_dynamite: false,
            using_dynamite_timer: DYNAMITE_THROW_DURATION,
        }
    }
}

} // verus!
