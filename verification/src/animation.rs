//! The frames with which the miner is drawn.

use vstd::prelude::*;
use crate::timer::{Timer, TimerMode};

verus! {

/// How long a frame is shown while the miner idles or reaches out, in
/// milliseconds.
pub const SLOW_INTERVAL: u32 = 1_000;

/// How long a frame is shown while the miner pulls, throws or flexes, in
/// milliseconds.
pub const FAST_INTERVAL: u32 = 130;

/// What the miner is doing.
#[derive(Debug, Clone, Copy, PartialEq, Eq, Structural)]
pub enum PlayerAnimationState {
    Idle,
    Grab,
    GrabBack,
    UseDynamite,
    Strengthen,
}

/// The animation of the miner.
#[derive(Debug, Clone, Copy, PartialEq, Eq)]
pub struct PlayerAnimation {
    /// Times the frames.
    pub timer: Timer,
    /// The place of the frame now shown in the frames of the state.
    pub frame: usize,
    pub state: PlayerAnimationState,
    /// Set when the frame to draw changed on the last tick.
    pub state_changed: bool,
}

/// The frames of the sprite sheet that a state runs through.
pub open spec fn spec_frames(state: PlayerAnimationState) -> Seq<usize> {
    match state {
        PlayerAnimationState::Idle => seq![0usize],
        PlayerAnimationState::Grab => seq![2usize],
        PlayerAnimationState::GrabBack => seq![0usize, 1usize, 2usize],
        PlayerAnimationState::UseDynamite => seq![3usize, 4usize, 5usize],
        PlayerAnimationState::Strengthen => seq![6usize, 7usize, 6usize, 7usize],
    }
}

/// How long each frame of a state is shown, in milliseconds.
pub open spec fn spec_interval(state: PlayerAnimationState) -> u32 {
    match state {
        PlayerAnimationState::Idle => SLOW_INTERVAL,
        PlayerAnimationState::Grab => SLOW_INTERVAL,
        _ => FAST_INTERVAL,
    }
}

impl PlayerAnimation {
    /// The frame shown is one of the frames of the state.
    pub open spec fn inv(self) -> bool {
        &&& self.timer.inv()
        &&& self.frame < spec_frames(self.state).len()
    }

    /// The animation after `delta` milliseconds: a state of several frames
    /// moves on to its next frame, and from the last to the first, whenever the
    /// time of a frame comes to an end; a state of one frame stands still.
    pub open spec fn spec_update_timer(self, delta: u32) -> PlayerAnimation {
        if spec_frames(self.state).len() > 1 {
            if self.timer.tick_spec(delta).times_finished_this_tick > 0 {
                PlayerAnimation {
                    timer: self.timer.tick_spec(delta),
                    frame: ((self.frame + 1) % (spec_frames(self.state).len() as int)) as usize,
                    state_changed: true,
                    ..self
                }
            } else {
                PlayerAnimation {
                    timer: self.timer.tick_spec(delta),
                    state_changed: false,
                    ..self
                }
            }
        } else {
            PlayerAnimation { state_changed: false, ..self }
        }
    }

    /// The animation after a change to `new_state`: it starts that state at its
    /// first frame, unless it is in that state already.
    pub open spec fn spec_update_state(self, new_state: PlayerAnimationState) -> PlayerAnimation {
        if self.state == new_state {
            self
        } else {
            PlayerAnimation {
                timer: Timer {
                    elapsed: 0,
                    duration: spec_interval(new_state),
                    mode: TimerMode::Repeating,
                    finished: false,
                    times_finished_this_tick: 0,
                },
                frame: 0,
                state: new_state,
                state_changed: true,
            }
        }
    }

    /// Tells whether the frame shown is one of the frames of the state.
    pub fn check(&self) -> (ok: bool)
        ensures
            ok == self.inv(),
    {
        self.timer.check() && self.frame < self.get_frames()
    }

    /// An idle miner, to be drawn at once.
    pub fn new() -> (a: PlayerAnimation)
        ensures
            a == (PlayerAnimation {
                timer: Timer {
                    elapsed: 0,
                    duration: SLOW_INTERVAL,
                    mode: TimerMode::Repeating,
                    finished: false,
                    times_finished_this_tick: 0,
                },
                frame: 0,
                state: PlayerAnimationState::Idle,
                state_changed: true,
            }),
            a.inv(),
    {
        PlayerAnimation {
            timer: Timer::new(SLOW_INTERVAL, TimerMode::Repeating),
            frame: 0,
            state: PlayerAnimationState::Idle,
            state_changed: true,
        }
    }

    /// How many frames the current state runs through.
    fn get_frames(&self) -> (count: usize)
        ensures
            count == spec_frames(self.state).len(),
            count >= 1,
    {
        match self.state {
            PlayerAnimationState::Idle => 1,
            PlayerAnimationState::Grab => 1,
            PlayerAnimationState::GrabBack => 3,
            PlayerAnimationState::UseDynamite => 3,
            PlayerAnimationState::Strengthen => 4,
        }
    }

    /// How long each frame of the current state is shown.
    fn get_interval(&self) -> (interval: u32)
        ensures
            interval == spec_interval(self.state),
    {
        match self.state {
            PlayerAnimationState::Idle => SLOW_INTERVAL,
            PlayerAnimationState::Grab => SLOW_INTERVAL,
            _ => FAST_INTERVAL,
        }
    }

    /// Lets `delta` milliseconds pass.
    pub fn update_timer(&mut self, delta: u32)
        requires
            old(self).inv(),
        ensures
            *final(self) == old(self).spec_update_timer(delta),
            final(self).inv(),
    {
        self.state_changed = false;
        let count = self.get_frames();
        if count > 1 {
            self.timer.tick(delta);
            if self.timer.just_finished() {
                self.frame = (self.frame + 1) % count;
                self.state_changed = true;
            }
        }
    }

    /// Changes what the miner is doing.
    pub fn update_state(&mut self, new_state: PlayerAnimationState)
        ensures
            *final(self) == old(self).spec_update_state(new_state),
            old(self).inv() ==> final(self).inv(),
    {
        if self.state != new_state {
            self.state = new_state;
            self.frame = 0;
            self.timer = Timer::new(self.get_interval(), TimerMode::Repeating);
            self.state_changed = true;
        }
    }

    /// Whether the frame to draw changed on the last tick.
    pub fn changed(&self) -> (changed: bool)
        ensures
            changed == self.state_changed,
    {
        self.state_changed
    }

    /// The frame of the sprite sheet to draw.
    pub fn get_atlas_index(&self) -> (index: usize)
        requires
            self.inv(),
        ensures
            index == spec_frames(self.state)[self.frame as int],
    {
        match self.state {
            PlayerAnimationState::Idle => 0,
            PlayerAnimationState::Grab => 2,
            PlayerAnimationState::GrabBack => self.frame,
            PlayerAnimationState::UseDynamite => self.frame + 3,
            PlayerAnimationState::Strengthen => 6 + self.frame % 2,
        }
    }

    /// What the miner is doing.
    pub fn state(&self) -> (state: PlayerAnimationState)
        ensures
            state == self.state,
    {
        self.state
    }
}

impl Default for PlayerAnimation {
    fn default() -> (a: PlayerAnimation)
        ensures
            a.state == PlayerAnimationState::Idle,
            a.frame == 0,
            a.state_changed,
            a.inv(),
    {
        PlayerAnimation::new()
    }
}

impl Default for PlayerAnimationState {
    fn default() -> (s: PlayerAnimationState)
        ensures
            s == PlayerAnimationState::Idle,
    {
        PlayerAnimationState::Idle
    }
}

} // verus!
