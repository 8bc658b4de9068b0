//! The screens of the game and what leads from one to the next.

use vstd::prelude::*;
use crate::stats::LevelStats;
use crate::timer::Timer;

verus! {

/// The screens of the game.
#[derive(Debug, Clone, Copy, PartialEq, Eq, Hash, Structural)]
pub enum Screen {
    Splash,
    Title,
    Loading,
    NextGoal,
    Gameplay,
    MadeGoal,
    Shop,
    GameOver,
    NewHighScore,
}

/// The menus that can lie over a screen.
#[derive(Debug, Clone, Copy, PartialEq, Eq, Hash, Structural)]
pub enum Menu {
    /// No menu is open.
    Closed,
    Main,
    HighScore,
}

/// The entries of the main menu.
#[derive(Debug, Clone, Copy, PartialEq, Eq, Hash, Structural)]
pub enum MenuSelect {
    StartGame,
    HighScore,
}

/// The phases of a run.
#[derive(Debug, Clone, Copy, PartialEq, Eq, Hash, Structural)]
pub enum GameState {
    ShowNextGoal,
    Game,
    /// The time is up and the goal was made.
    ShoeMadeGoal,
    GameOver,
    Shop,
}

/// The best run so far.
#[derive(Debug, Clone, Copy, PartialEq, Eq, Structural)]
pub struct PersistentData {
    pub high_score: u32,
    pub high_level: u32,
}

/// The best run so far, as the high-score menu shows it.
#[derive(Debug, Clone, Copy, PartialEq, Eq, Structural)]
pub struct HighScoreLog {
    pub score: u32,
    pub level: u32,
}

impl Default for Screen {
    fn default() -> (s: Screen)
        ensures
            s == Screen::Splash,
    {
        Screen::Splash
    }
}

impl Default for Menu {
    fn default() -> (m: Menu)
        ensures
            m == Menu::Closed,
    {
        Menu::Closed
    }
}

impl Default for MenuSelect {
    fn default() -> (m: MenuSelect)
        ensures
            m == MenuSelect::StartGame,
    {
        MenuSelect::StartGame
    }
}

impl Default for GameState {
    fn default() -> (g: GameState)
        ensures
            g == GameState::ShowNextGoal,
    {
        GameState::ShowNextGoal
    }
}

impl Default for PersistentData {
    fn default() -> (p: PersistentData)
        ensures
            p == (PersistentData { high_score: 0, high_level: 0 }),
    {
        PersistentData { high_score: 0, high_level: 0 }
    }
}

impl Default for HighScoreLog {
    fn default() -> (h: HighScoreLog)
        ensures
            h == (HighScoreLog { score: 0, level: 0 }),
    {
        HighScoreLog { score: 0, level: 0 }
    }
}

impl PersistentData {
    /// A record without any run.
    pub fn reset() -> (p: PersistentData)
        ensures
            p == (PersistentData { high_score: 0, high_level: 0 }),
    {
        PersistentData { high_score: 0, high_level: 0 }
    }

    /// Whether a run that ended with `money` beats the record.
    pub open spec fn spec_beaten_by(self, money: u32) -> bool {
        money > self.high_score
    }

    /// Tells whether the run beats the record.
    pub fn is_new_high_score(&self, stats: &LevelStats) -> (beaten: bool)
        ensures
            beaten == self.spec_beaten_by(stats.money),
    {
        stats.money > self.high_score
    }
}

/// The time left of a level after `dt` more milliseconds.
pub open spec fn spec_time_left(timer: u32, dt: u32) -> int {
    if dt >= timer {
        0
    } else {
        timer - dt
    }
}

/// Lets `dt` milliseconds of the level pass. When the time is up, tells which
/// screen follows: that of the goal made if the money reaches the goal, and
/// that of the end of the game if not.
pub fn update_gameplay_timer(stats: &mut LevelStats, dt: u32) -> (next: Option<Screen>)
    ensures
        final(stats).timer == spec_time_left(old(stats).timer, dt),
        final(stats).money == old(stats).money,
        final(stats).goal == old(stats).goal,
        final(stats).goal_addon == old(stats).goal_addon,
        final(stats).level == old(stats).level,
        final(stats).is_first_init == old(stats).is_first_init,
        final(stats).real_level_str == old(stats).real_level_str,
        next == if final(stats).timer > 0 {
            None
        } else if old(stats).spec_reach_goal() {
            Some(Screen::MadeGoal)
        } else {
            Some(Screen::GameOver)
        },
{
    if dt >= stats.timer {
        stats.timer = 0;
        if stats.reach_goal() {
            Some(Screen::MadeGoal)
        } else {
            Some(Screen::GameOver)
        }
    } else {
        stats.timer = stats.timer - dt;
        None
    }
}

/// Leaves the screen of the end of the game once a key is pressed: a run that
/// beat the record is written into it and leads to the screen of the new
/// record, any other leads back to the title.
pub fn check_keyboard_input(
    key_pressed: bool,
    is_new_high_score: bool,
    stats: &LevelStats,
    persistent: &mut PersistentData,
) -> (next: Option<Screen>)
    ensures
        next == if !key_pressed {
            None
        } else if is_new_high_score {
            Some(Screen::NewHighScore)
        } else {
            Some(Screen::Title)
        },
        *final(persistent) == if key_pressed && is_new_high_score {
            PersistentData { high_score: stats.money, high_level: stats.level }
        } else {
            *old(persistent)
        },
{
    if key_pressed {
        if is_new_high_score {
            persistent.high_score = stats.money;
            persistent.high_level = stats.level;
            Some(Screen::NewHighScore)
        } else {
            Some(Screen::Title)
        }
    } else {
        None
    }
}

/// Lets `dt` milliseconds pass on a screen that is left after a fixed time,
/// and tells whether `next` follows now.
pub fn check_transition(timer: &mut Timer, dt: u32, next: Screen) -> (go: Option<Screen>)
    requires
        old(timer).inv(),
    ensures
        *final(timer) == old(timer).tick_spec(dt),
        final(timer).inv(),
        go == if final(timer).times_finished_this_tick > 0 {
            Some(next)
        } else {
            None
        },
{
    timer.tick(dt);
    if timer.just_finished() {
        Some(next)
    } else {
        None
    }
}

/// The screen that a click on the play button leads to: the game if all is
/// loaded, the loading screen if not.
pub fn enter_loading_or_gameplay_screen(all_done: bool) -> (next: Screen)
    ensures
        next == if all_done {
            Screen::Gameplay
        } else {
            Screen::Loading
        },
{
    if all_done {
        Screen::Gameplay
    } else {
        Screen::Loading
    }
}

/// Moves on to the next level when the goal was made: the level counts one
/// more, its layout is picked by `draw`, and it gets its full time.
pub fn advance_level(stats: &mut LevelStats, draw: u32)
    ensures
        final(stats).level == if old(stats).level < u32::MAX {
            (old(stats).level + 1) as u32
        } else {
            u32::MAX
        },
        final(stats).real_level_str@ == crate::stats::spec_level_key(
            crate::stats::spec_real_level(final(stats).level) as u32,
            crate::stats::spec_variant(draw) as u32,
        ),
        final(stats).timer == crate::stats::LEVEL_DURATION,
        final(stats).money == old(stats).money,
        final(stats).goal == old(stats).goal,
        final(stats).goal_addon == old(stats).goal_addon,
        final(stats).is_first_init == old(stats).is_first_init,
{
    if stats.level < u32::MAX {
        stats.level = stats.level + 1;
    }
    stats.set_real_level(draw);
    stats.reset_timer();
}

/// Moves on to the next level when the goal was made, with a layout picked at
/// random: the level counts one more and gets its full time.
pub fn spawn_made_goal_ui(stats: &mut LevelStats)
    ensures
        final(stats).level == if old(stats).level < u32::MAX {
            (old(stats).level + 1) as u32
        } else {
            u32::MAX
        },
        exists|variant: u32|
            1 <= variant <= 3 && final(stats).real_level_str@
                == #[trigger] crate::stats::spec_level_key(
                crate::stats::spec_real_level(final(stats).level) as u32,
                variant,
            ),
        final(stats).timer == crate::stats::LEVEL_DURATION,
        final(stats).money == old(stats).money,
        final(stats).goal == old(stats).goal,
        final(stats).goal_addon == old(stats).goal_addon,
        final(stats).is_first_init == old(stats).is_first_init,
{
    if stats.level < u32::MAX {
        stats.level = stats.level + 1;
    }
    stats.calculate_real_level();
    stats.reset_timer();
}

/// Announces the goal of the level about to begin: the goal moves on, and the
/// words that introduce it tell the first goal from the later ones.
pub fn spawn_next_goal_ui(stats: &mut LevelStats) -> (words: &'static str)
    ensures
        final(stats).goal_addon == old(stats).spec_next_addon(),
        final(stats).goal == old(stats).spec_next_goal(),
        !final(stats).is_first_init,
        words@ == if old(stats).is_first_init {
            "Your First Goal is"@
        } else {
            "Your Next Goal is"@
        },
        final(stats).money == old(stats).money,
        final(stats).level == old(stats).level,
        final(stats).timer == old(stats).timer,
        final(stats).real_level_str == old(stats).real_level_str,
{
    stats.update_goal();
    if stats.is_first_init {
        stats.is_first_init = false;
        "Your First Goal is"
    } else {
        "Your Next Goal is"
    }
}

} // verus!
