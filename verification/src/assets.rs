//! The pictures that the game asks for, by name.

use vstd::prelude::*;
use crate::config::str_eq;

verus! {

/// A picture of something in the game or of a piece of its interface.
#[derive(Debug, Clone, Copy, PartialEq, Eq, Hash, Structural)]
pub enum SpriteId {
    MiniGold,
    NormalGold,
    NormalGoldPlus,
    BigGold,
    MiniRock,
    NormalRock,
    BigRock,
    QuestionBag,
    Diamond,
    Skull,
    Bone,
    Tnt,
    TntDestroyed,
    MenuArrow,
    Panel,
    DialogueBubble,
    Title,
    Selector,
    DynamiteUi,
    Strength,
    Table,
    Dynamite,
    StrengthDrink,
    LuckyClover,
    RockCollectorsBook,
    GemPolish,
}

/// A background.
#[derive(Debug, Clone, Copy, PartialEq, Eq, Hash, Structural)]
pub enum BackgroundId {
    Menu,
    LevelCommonTop,
    LevelA,
    LevelB,
    LevelC,
    LevelD,
    LevelE,
    Goal,
    Shop,
}

/// The picture that is drawn for a name. Large rocks and mystery bags are
/// drawn with the picture of the small nugget.
pub open spec fn spec_sprite_of(name: Seq<char>) -> Option<SpriteId> {
    if name == "MiniGold"@ {
        Some(SpriteId::MiniGold)
    } else if name == "NormalGold"@ {
        Some(SpriteId::NormalGold)
    } else if name == "NormalGoldPlus"@ {
        Some(SpriteId::NormalGoldPlus)
    } else if name == "BigGold"@ {
        Some(SpriteId::BigGold)
    } else if name == "MiniRock"@ {
        Some(SpriteId::MiniRock)
    } else if name == "NormalRock"@ {
        Some(SpriteId::NormalRock)
    } else if name == "BigRock"@ {
        Some(SpriteId::MiniGold)
    } else if name == "QuestionBag"@ {
        Some(SpriteId::MiniGold)
    } else if name == "Diamond"@ {
        Some(SpriteId::Diamond)
    } else if name == "Skull"@ {
        Some(SpriteId::Skull)
    } else if name == "Bone"@ {
        Some(SpriteId::Bone)
    } else if name == "TNT"@ {
        Some(SpriteId::Tnt)
    } else if name == "TNT_Destroyed"@ {
        Some(SpriteId::TntDestroyed)
    } else if name == "MenuArrow"@ {
        Some(SpriteId::MenuArrow)
    } else if name == "Panel"@ {
        Some(SpriteId::Panel)
    } else if name == "DialogueBubble"@ {
        Some(SpriteId::DialogueBubble)
    } else if name == "Title"@ {
        Some(SpriteId::Title)
    } else if name == "Selector"@ {
        Some(SpriteId::Selector)
    } else if name == "DynamiteUI"@ {
        Some(SpriteId::DynamiteUi)
    } else if name == "Strength!"@ {
        Some(SpriteId::Strength)
    } else if name == "Table"@ {
        Some(SpriteId::Table)
    } else if name == "Dynamite"@ {
        Some(SpriteId::Dynamite)
    } else if name == "StrengthDrink"@ {
        Some(SpriteId::StrengthDrink)
    } else if name == "LuckyClover"@ {
        Some(SpriteId::LuckyClover)
    } else if name == "RockCollectorsBook"@ {
        Some(SpriteId::RockCollectorsBook)
    } else if name == "GemPolish"@ {
        Some(SpriteId::GemPolish)
    } else {
        None
    }
}

/// The background that a name stands for.
pub open spec fn spec_background_of(name: Seq<char>) -> Option<BackgroundId> {
    if name == "Menu"@ {
        Some(BackgroundId::Menu)
    } else if name == "LevelCommonTop"@ {
        Some(BackgroundId::LevelCommonTop)
    } else if name == "LevelA"@ {
        Some(BackgroundId::LevelA)
    } else if name == "LevelB"@ {
        Some(BackgroundId::LevelB)
    } else if name == "LevelC"@ {
        Some(BackgroundId::LevelC)
    } else if name == "LevelD"@ {
        Some(BackgroundId::LevelD)
    } else if name == "LevelE"@ {
        Some(BackgroundId::LevelE)
    } else if name == "Goal"@ {
        Some(BackgroundId::Goal)
    } else if name == "Shop"@ {
        Some(BackgroundId::Shop)
    } else {
        None
    }
}

/// Finds the picture that is drawn for a name; any other text has none.
pub fn get_sprite(id: &str) -> (sprite: Option<SpriteId>)
    ensures
        sprite == spec_sprite_of(id@),
{
    if str_eq(id, "MiniGold") {
        Some(SpriteId::MiniGold)
    } else if str_eq(id, "NormalGold") {
        Some(SpriteId::NormalGold)
    } else if str_eq(id, "NormalGoldPlus") {
        Some(SpriteId::NormalGoldPlus)
    } else if str_eq(id, "BigGold") {
        Some(SpriteId::BigGold)
    } else if str_eq(id, "MiniRock") {
        Some(SpriteId::MiniRock)
    } else if str_eq(id, "NormalRock") {
        Some(SpriteId::NormalRock)
    } else if str_eq(id, "BigRock") {
        Some(SpriteId::MiniGold)
    } else if str_eq(id, "QuestionBag") {
        Some(SpriteId::MiniGold)
    } else if str_eq(id, "Diamond") {
        Some(SpriteId::Diamond)
    } else if str_eq(id, "Skull") {
        Some(SpriteId::Skull)
    } else if str_eq(id, "Bone") {
        Some(SpriteId::Bone)
    } else if str_eq(id, "TNT") {
        Some(SpriteId::Tnt)
    } else if str_eq(id, "TNT_Destroyed") {
        Some(SpriteId::TntDestroyed)
    } else if str_eq(id, "MenuArrow") {
        Some(SpriteId::MenuArrow)
    } else if str_eq(id, "Panel") {
        Some(SpriteId::Panel)
    } else if str_eq(id, "DialogueBubble") {
        Some(SpriteId::DialogueBubble)
    } else if str_eq(id, "Title") {
        Some(SpriteId::Title)
    } else if str_eq(id, "Selector") {
        Some(SpriteId::Selector)
    } else if str_eq(id, "DynamiteUI") {
        Some(SpriteId::DynamiteUi)
    } else if str_eq(id, "Strength!") {
        Some(SpriteId::Strength)
    } else if str_eq(id, "Table") {
        Some(SpriteId::Table)
    } else if str_eq(id, "Dynamite") {
        Some(SpriteId::Dynamite)
    } else if str_eq(id, "StrengthDrink") {
        Some(SpriteId::StrengthDrink)
    } else if str_eq(id, "LuckyClover") {
        Some(SpriteId::LuckyClover)
    } else if str_eq(id, "RockCollectorsBook") {
        Some(SpriteId::RockCollectorsBook)
    } else if str_eq(id, "GemPolish") {
        Some(SpriteId::GemPolish)
    } else {
        None
    }
}

/// Finds the background that a name stands for; any other text has none.
pub fn get_background(id: &str) -> (background: Option<BackgroundId>)
    ensures
        background == spec_background_of(id@),
{
    if str_eq(id, "Menu") {
        Some(BackgroundId::Menu)
    } else if str_eq(id, "LevelCommonTop") {
        Some(BackgroundId::LevelCommonTop)
    } else if str_eq(id, "LevelA") {
        Some(BackgroundId::LevelA)
    } else if str_eq(id, "LevelB") {
        Some(BackgroundId::LevelB)
    } else if str_eq(id, "LevelC") {
        Some(BackgroundId::LevelC)
    } else if str_eq(id, "LevelD") {
        Some(BackgroundId::LevelD)
    } else if str_eq(id, "LevelE") {
        Some(BackgroundId::LevelE)
    } else if str_eq(id, "Goal") {
        Some(BackgroundId::Goal)
    } else if str_eq(id, "Shop") {
        Some(BackgroundId::Shop)
    } else {
        None
    }
}

} // verus!
