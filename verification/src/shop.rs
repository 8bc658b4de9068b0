//! The shop between two levels: what is on offer, at what price, and what a
//! purchase does.

use vstd::prelude::*;
use crate::audio::AudioId;
use crate::player::{PlayerResource, MAX_DYNAMITE};
use crate::random::random_between;
use crate::screens::Screen;
use crate::stats::LevelStats;
use crate::timer::{Timer, TimerMode};

verus! {

/// How long the shop stays open after the shopping is over, in milliseconds.
pub const SHOP_FINISH_DURATION: u32 = 1_500;

/// The things that the shop sells.
#[derive(Debug, Clone, Copy, PartialEq, Eq, Structural)]
pub enum PropType {
    Dynamite,
    StrengthDrink,
    LuckyClover,
    RockCollectorsBook,
    GemPolish,
}

/// One thing on offer.
#[derive(Debug, Clone, Copy, PartialEq, Eq, Structural)]
pub struct ShopItem {
    pub prop_type: PropType,
    pub price: u32,
}

/// The shop during one visit.
#[derive(Debug, Clone)]
pub struct ShopState {
    /// What is still on offer, from left to right.
    pub items: Vec<ShopItem>,
    /// The offer that the selector points at.
    pub selector_index: usize,
    pub is_finish_shopping: bool,
    /// Times the farewell.
    pub finish_timer: Timer,
    /// Set once the player has bought something.
    pub player_bought: bool,
}

/// What the shop shows after a tick.
#[derive(Debug, Clone, Copy, PartialEq, Eq)]
pub struct ShopView {
    /// The description of the selected offer, if the selector points at one.
    pub description: Option<PropType>,
    /// The words of farewell, once the shopping is over.
    pub farewell: Option<&'static str>,
    /// The screen that follows, on the tick on which the shop closes.
    pub next: Option<Screen>,
}

/// `a * b`, or the largest `u32` where the product exceeds it.
pub open spec fn saturating_product(a: int, b: int) -> int {
    if a * b > u32::MAX {
        u32::MAX as int
    } else {
        a * b
    }
}

/// `a + b`, or the largest `u32` where the sum exceeds it.
pub open spec fn saturating_total(a: int, b: int) -> int {
    if a + b > u32::MAX {
        u32::MAX as int
    } else {
        a + b
    }
}

impl PropType {
    /// The place of the thing on the shelf, from the left.
    pub open spec fn rank(self) -> int {
        match self {
            PropType::Dynamite => 0,
            PropType::StrengthDrink => 1,
            PropType::LuckyClover => 2,
            PropType::RockCollectorsBook => 3,
            PropType::GemPolish => 4,
        }
    }

    /// The lowest draw for the price of the thing.
    pub open spec fn spec_draw_low(self) -> int {
        match self {
            PropType::Dynamite => 1,
            PropType::StrengthDrink => 100,
            PropType::LuckyClover => 1,
            PropType::RockCollectorsBook => 1,
            PropType::GemPolish => 201,
        }
    }

    /// The highest draw for the price of the thing at the given level.
    pub open spec fn spec_draw_high(self, level: u32) -> int {
        match self {
            PropType::Dynamite => 300,
            PropType::StrengthDrink => 400,
            PropType::LuckyClover => if level == 0 {
                1
            } else {
                saturating_product(level as int, 50)
            },
            PropType::RockCollectorsBook => 150,
            PropType::GemPolish => saturating_total(saturating_product(level as int, 100), 201),
        }
    }

    /// What is added to the draw to make the price.
    pub open spec fn spec_markup(self, level: u32) -> int {
        match self {
            PropType::Dynamite => saturating_total(1, saturating_product(level as int, 2)),
            PropType::StrengthDrink => 0,
            PropType::LuckyClover => saturating_total(1, saturating_product(level as int, 2)),
            PropType::RockCollectorsBook => 1,
            PropType::GemPolish => 0,
        }
    }

    /// The price that a draw makes: the draw and the markup, and no more than
    /// the largest `u32`.
    pub open spec fn spec_price(self, level: u32, draw: u32) -> int {
        saturating_total(draw as int, self.spec_markup(level))
    }

    /// The thing can cost `price` at the given level.
    pub open spec fn spec_can_cost(self, level: u32, price: u32) -> bool {
        exists|draw: u32|
            self.spec_draw_low() <= draw <= self.spec_draw_high(level) && price
                == #[trigger] self.spec_price(level, draw)
    }

    /// What the thing does, in the shop's words.
    pub fn description(&self) -> (text: &'static str)
        ensures
            text@ == match *self {
                PropType::Dynamite => "Destroy grabbed entity"@,
                PropType::StrengthDrink => "Pull faster next level"@,
                PropType::LuckyClover => "2x luck on bags"@,
                PropType::RockCollectorsBook => "3x rock value"@,
                PropType::GemPolish => "1.5x diamond value"@,
            },
    {
        match self {
            PropType::Dynamite => "Destroy grabbed entity",
            PropType::StrengthDrink => "Pull faster next level",
            PropType::LuckyClover => "2x luck on bags",
            PropType::RockCollectorsBook => "3x rock value",
            PropType::GemPolish => "1.5x diamond value",
        }
    }

    /// The name of the picture of the thing.
    pub fn image_id(&self) -> (id: &'static str)
        ensures
            id@ == match *self {
                PropType::Dynamite => "Dynamite"@,
                PropType::StrengthDrink => "StrengthDrink"@,
                PropType::LuckyClover => "LuckyClover"@,
                PropType::RockCollectorsBook => "RockCollectorsBook"@,
                PropType::GemPolish => "GemPolish"@,
            },
    {
        match self {
            PropType::Dynamite => "Dynamite",
            PropType::StrengthDrink => "StrengthDrink",
            PropType::LuckyClover => "LuckyClover",
            PropType::RockCollectorsBook => "RockCollectorsBook",
            PropType::GemPolish => "GemPolish",
        }
    }

    /// The range from which the price of the thing is drawn.
    pub fn draw_range(&self, level: u32) -> (range: (u32, u32))
        ensures
            range.0 == self.spec_draw_low(),
            range.1 == self.spec_draw_high(level),
            range.0 <= range.1,
    {
        match self {
            PropType::Dynamite => (1, 300),
            PropType::StrengthDrink => (100, 400),
            PropType::LuckyClover => {
                if level == 0 {
                    (1, 1)
                } else {
                    (1, times(level, 50))
                }
            },
            PropType::RockCollectorsBook => (1, 150),
            PropType::GemPolish => (201, times(level, 100).saturating_add(201)),
        }
    }

    /// The price that a draw makes.
    pub fn price_from_draw(&self, level: u32, draw: u32) -> (price: u32)
        ensures
            price == self.spec_price(level, draw),
    {
        let markup: u32 = match self {
            PropType::Dynamite => 1u32.saturating_add(times(level, 2)),
            PropType::StrengthDrink => 0,
            PropType::LuckyClover => 1u32.saturating_add(times(level, 2)),
            PropType::RockCollectorsBook => 1,
            PropType::GemPolish => 0,
        };
        draw.saturating_add(markup)
    }

    /// Draws the price of the thing at the given level.
    pub fn get_price(&self, level: u32) -> (price: u32)
        ensures
            self.spec_can_cost(level, price),
    {
        let (low, high) = self.draw_range(level);
        let draw = random_between(low, high);
        self.price_from_draw(level, draw)
    }
}

/// `a * b`, or the largest `u32` where the product exceeds it.
fn times(a: u32, b: u32) -> (r: u32)
    ensures
        r == saturating_product(a as int, b as int),
{
    let x: u64 = a as u64;
    let y: u64 = b as u64;
    assert(0 <= x * y <= 0xffff_ffff * 0xffff_ffff) by (nonlinear_arith)
        requires
            0 <= x <= 0xffff_ffff,
            0 <= y <= 0xffff_ffff,
    ;
    let wide: u64 = x * y;
    if wide > u32::MAX as u64 {
        u32::MAX
    } else {
        wide as u32
    }
}

/// The player after buying a thing: one charge more, but not beyond the cap,
/// for dynamite, and the thing itself for anything else.
pub open spec fn spec_bought(player: PlayerResource, prop: PropType) -> PlayerResource {
    match prop {
        PropType::Dynamite => PlayerResource {
            dynamite_count: if player.dynamite_count < MAX_DYNAMITE {
                (player.dynamite_count + 1) as i32
            } else {
                MAX_DYNAMITE
            },
            ..player
        },
        PropType::StrengthDrink => PlayerResource { has_strength_drink: true, ..player },
        PropType::LuckyClover => PlayerResource { has_lucky_clover: true, ..player },
        PropType::RockCollectorsBook => PlayerResource { has_rock_collectors_book: true, ..player },
        PropType::GemPolish => PlayerResource { has_gem_polish: true, ..player },
    }
}

/// Gives the player a thing that was bought.
pub fn give(player: &mut PlayerResource, prop: PropType)
    requires
        old(player).inv(),
    ensures
        *final(player) == spec_bought(*old(player), prop),
        final(player).inv(),
{
    match prop {
        PropType::Dynamite => {
            if player.dynamite_count < MAX_DYNAMITE {
                player.dynamite_count = player.dynamite_count + 1;
            } else {
                player.dynamite_count = MAX_DYNAMITE;
            }
        },
        PropType::StrengthDrink => {
            player.has_strength_drink = true;
        },
        PropType::LuckyClover => {
            player.has_lucky_clover = true;
        },
        PropType::RockCollectorsBook => {
            player.has_rock_collectors_book = true;
        },
        PropType::GemPolish => {
            player.has_gem_polish = true;
        },
    }
}

/// Where the selector points after the keys for left and right: one to the
/// left unless it is leftmost, and then one to the right unless it is
/// rightmost.
pub open spec fn spec_moved(index: usize, count: nat, left: bool, right: bool) -> int {
    let after_left = if left && index > 0 {
        index - 1
    } else {
        index as int
    };
    if right && count > 0 && after_left < count - 1 {
        after_left + 1
    } else {
        after_left
    }
}

impl ShopState {
    /// The finish timer is sound.
    pub open spec fn inv(self) -> bool {
        self.finish_timer.inv()
    }

    /// Tells whether the finish timer is sound.
    pub fn check(&self) -> (ok: bool)
        ensures
            ok == self.inv(),
    {
        self.finish_timer.check()
    }

    /// Whether the purchase goes through: the shopping is not over, the key to
    /// buy was pressed, the selector, after it has moved, points at an offer,
    /// and the money covers the price.
    pub open spec fn spec_buys(self, money: u32, left: bool, right: bool, buy: bool) -> bool {
        let at = spec_moved(self.selector_index, self.items@.len(), left, right);
        !self.is_finish_shopping && buy && at < self.items@.len() && money
            >= self.items@[at].price
    }

    /// A shop that offers `items`.
    pub fn new(items: Vec<ShopItem>) -> (shop: ShopState)
        ensures
            shop.items == items,
            shop.selector_index == 0,
            !shop.is_finish_shopping,
            !shop.player_bought,
            shop.finish_timer == (Timer {
                elapsed: 0,
                duration: SHOP_FINISH_DURATION,
                mode: TimerMode::Once,
                finished: false,
                times_finished_this_tick: 0,
            }),
            shop.inv(),
    {
        ShopState {
            items,
            selector_index: 0,
            is_finish_shopping: false,
            finish_timer: Timer::new(SHOP_FINISH_DURATION, TimerMode::Once),
            player_bought: false,
        }
    }
}

impl Default for ShopState {
    fn default() -> (shop: ShopState)
        ensures
            shop.items@.len() == 0,
            shop.selector_index == 0,
            !shop.is_finish_shopping,
            !shop.player_bought,
            shop.inv(),
    {
        ShopState::new(Vec::new())
    }
}

/// Whether a draw from one to three puts a thing on the shelf: two draws in
/// three do.
pub open spec fn spec_on_offer(draw: u32) -> bool {
    draw >= 2
}

/// The offers are in the order of the shelf, none twice, and each at a price
/// that it can cost at the given level.
pub open spec fn spec_well_stocked(items: Seq<ShopItem>, level: u32) -> bool {
    &&& forall|i: int, j: int|
        0 <= i < j < items.len() ==> (#[trigger] items[i]).prop_type.rank() < (
        #[trigger] items[j]).prop_type.rank()
    &&& forall|i: int|
        0 <= i < items.len() ==> (#[trigger] items[i]).prop_type.spec_can_cost(
            level,
            items[i].price,
        )
}

/// Stocks the shop for a visit at the given level. Each thing is put on the
/// shelf with a chance of two in three, at a price drawn for it; a shelf that
/// would be empty gets dynamite.
pub fn spawn_shop_ui(level: u32) -> (shop: ShopState)
    ensures
        1 <= shop.items@.len() <= 5,
        spec_well_stocked(shop.items@, level),
        shop.selector_index == 0,
        !shop.is_finish_shopping,
        !shop.player_bought,
        shop.inv(),
{
    let mut items: Vec<ShopItem> = Vec::new();
    let mut k: usize = 0;
    while k < 5
        invariant
            k <= 5,
            items@.len() <= k,
            spec_well_stocked(items@, level),
            forall|i: int| 0 <= i < items@.len() ==> (#[trigger] items@[i]).prop_type.rank() < k,
        decreases 5 - k,
    {
        let prop = if k == 0 {
            PropType::Dynamite
        } else if k == 1 {
            PropType::StrengthDrink
        } else if k == 2 {
            PropType::LuckyClover
        } else if k == 3 {
            PropType::RockCollectorsBook
        } else {
            PropType::GemPolish
        };
        if random_between(1, 3) >= 2 {
            let price = prop.get_price(level);
            items.push(ShopItem { prop_type: prop, price });
        }
        k += 1;
    }
    if items.len() == 0 {
        let price = PropType::Dynamite.get_price(level);
        items.push(ShopItem { prop_type: PropType::Dynamite, price });
    }
    ShopState::new(items)
}

/// Handles the keys pressed in the shop on one tick.
///
/// Once the shopping is over, nothing happens. Otherwise the selector moves,
/// a purchase that goes through takes the price from the money, gives the
/// player the thing, takes the offer off the shelf and asks for the sound of
/// money; the shopping is over when the shelf is empty or the key to leave was
/// pressed.
pub fn handle_shop_input(
    shop: &mut ShopState,
    left: bool,
    right: bool,
    buy: bool,
    exit_shop: bool,
    stats: &mut LevelStats,
    player: &mut PlayerResource,
) -> (cue: Option<AudioId>)
    requires
        old(shop).inv(),
        old(player).inv(),
    ensures
        old(shop).is_finish_shopping ==> *final(shop) == *old(shop) && *final(stats) == *old(stats)
            && *final(player) == *old(player) && cue.is_none(),
        !old(shop).is_finish_shopping ==> {
            let at = spec_moved(old(shop).selector_index, old(shop).items@.len(), left, right);
            let buys = old(shop).spec_buys(old(stats).money, left, right, buy);
            &&& cue == if buys {
                Some(AudioId::Money)
            } else {
                None
            }
            &&& final(shop).items@ == if buys {
                old(shop).items@.remove(at)
            } else {
                old(shop).items@
            }
            &&& final(shop).selector_index == if buys && at >= final(shop).items@.len() && at > 0 {
                at - 1
            } else {
                at
            }
            &&& final(shop).player_bought == (old(shop).player_bought || buys)
            &&& final(shop).is_finish_shopping == (exit_shop || (buys && final(shop).items@.len() == 0))
            &&& final(shop).finish_timer == old(shop).finish_timer
            &&& final(stats).money == if buys {
                (old(stats).money - old(shop).items@[at].price) as u32
            } else {
                old(stats).money
            }
            &&& *final(player) == if buys {
                spec_bought(*old(player), old(shop).items@[at].prop_type)
            } else {
                *old(player)
            }
        },
        final(stats).goal == old(stats).goal,
        final(stats).goal_addon == old(stats).goal_addon,
        final(stats).level == old(stats).level,
        final(stats).timer == old(stats).timer,
        final(stats).is_first_init == old(stats).is_first_init,
        final(stats).real_level_str == old(stats).real_level_str,
        final(shop).inv(),
        final(player).inv(),
{
    if shop.is_finish_shopping {
        return None;
    }
    if left && shop.selector_index > 0 {
        shop.selector_index = shop.selector_index - 1;
    }
    if right && shop.items.len() > 0 && shop.selector_index < shop.items.len() - 1 {
        shop.selector_index = shop.selector_index + 1;
    }
    let mut cue: Option<AudioId> = None;
    if buy && shop.selector_index < shop.items.len() {
        let at = shop.selector_index;
        let item = shop.items[at];
        if stats.money >= item.price {
            stats.money = stats.money - item.price;
            shop.player_bought = true;
            cue = Some(AudioId::Money);
            give(player, item.prop_type);
            shop.items.remove(at);
            if shop.selector_index >= shop.items.len() && shop.selector_index > 0 {
                shop.selector_index = shop.selector_index - 1;
            }
            if shop.items.len() == 0 {
                shop.is_finish_shopping = true;
            }
        }
    }
    if exit_shop {
        shop.is_finish_shopping = true;
    }
    cue
}

/// Lets `dt` milliseconds pass in the shop and tells what it shows: the
/// selected offer, and, once the shopping is over, the words of farewell,
/// until the time of the farewell is up and the next goal follows.
pub fn update_shop_ui(shop: &mut ShopState, dt: u32) -> (view: ShopView)
    requires
        old(shop).inv(),
    ensures
        view.description == if old(shop).selector_index < old(shop).items@.len() {
            Some(old(shop).items@[old(shop).selector_index as int].prop_type)
        } else {
            None
        },
        final(shop).items == old(shop).items,
        final(shop).selector_index == old(shop).selector_index,
        final(shop).is_finish_shopping == old(shop).is_finish_shopping,
        final(shop).player_bought == old(shop).player_bought,
        final(shop).finish_timer == if old(shop).is_finish_shopping {
            old(shop).finish_timer.tick_spec(dt)
        } else {
            old(shop).finish_timer
        },
        match view.farewell {
            Some(words) => old(shop).is_finish_shopping && words@ == if old(shop).player_bought {
                "Thank you!\nGood luck!"@
            } else {
                "  :("@
            },
            None => !old(shop).is_finish_shopping,
        },
        view.next == if old(shop).is_finish_shopping && final(shop).finish_timer.times_finished_this_tick > 0 {
            Some(Screen::NextGoal)
        } else {
            None
        },
        final(shop).inv(),
{
    let description = if shop.selector_index < shop.items.len() {
        Some(shop.items[shop.selector_index].prop_type)
    } else {
        None
    };
    if shop.is_finish_shopping {
        let words = if shop.player_bought {
            "Thank you!\nGood luck!"
        } else {
            "  :("
        };
        shop.finish_timer.tick(dt);
        ShopView {
            description,
            farewell: Some(words),
            next: if shop.finish_timer.just_finished() {
                Some(Screen::NextGoal)
            } else {
                None
            },
        }
    } else {
        ShopView { description, farewell: None, next: None }
    }
}

} // verus!
