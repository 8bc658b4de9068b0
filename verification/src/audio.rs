//! The sounds and pieces of music that the game asks for, by name.

use vstd::prelude::*;
use crate::config::{str_eq, BonusCategory};

verus! {

/// A sound or a piece of music.
#[derive(Debug, Clone, Copy, PartialEq, Eq, Structural)]
pub enum AudioId {
    Money,
    HookReset,
    GrabStart,
    GrabBack,
    Explosive,
    High,
    Normal,
    Low,
    Goal,
    MadeGoal,
}

/// The sound or piece of music that a name stands for.
pub open spec fn spec_audio_of(name: Seq<char>) -> Option<AudioId> {
    if name == "Money"@ {
        Some(AudioId::Money)
    } else if name == "HookReset"@ {
        Some(AudioId::HookReset)
    } else if name == "GrabStart"@ {
        Some(AudioId::GrabStart)
    } else if name == "GrabBack"@ {
        Some(AudioId::GrabBack)
    } else if name == "Explosive"@ {
        Some(AudioId::Explosive)
    } else if name == "High"@ {
        Some(AudioId::High)
    } else if name == "Normal"@ {
        Some(AudioId::Normal)
    } else if name == "Low"@ {
        Some(AudioId::Low)
    } else if name == "Goal"@ {
        Some(AudioId::Goal)
    } else if name == "MadeGoal"@ {
        Some(AudioId::MadeGoal)
    } else {
        None
    }
}

impl AudioId {
    /// Whether this is a piece of music, which loops, and not a sound.
    pub open spec fn spec_is_music(self) -> bool {
        self == AudioId::Goal || self == AudioId::MadeGoal
    }

    /// The sound that goes with a payout of the given class.
    pub open spec fn spec_for_category(category: BonusCategory) -> AudioId {
        match category {
            BonusCategory::High => AudioId::High,
            BonusCategory::Normal => AudioId::Normal,
            BonusCategory::Low => AudioId::Low,
        }
    }

    /// The name under which the sound or piece of music is asked for.
    pub fn name(&self) -> (name: &'static str)
        ensures
            spec_audio_of(name@) == Some(*self),
    {
        proof {
            lemma_names_differ();
        }
        match self {
            AudioId::Money => "Money",
            AudioId::HookReset => "HookReset",
            AudioId::GrabStart => "GrabStart",
            AudioId::GrabBack => "GrabBack",
            AudioId::Explosive => "Explosive",
            AudioId::High => "High",
            AudioId::Normal => "Normal",
            AudioId::Low => "Low",
            AudioId::Goal => "Goal",
            AudioId::MadeGoal => "MadeGoal",
        }
    }

    /// Tells whether this is a piece of music.
    pub fn is_music(&self) -> (music: bool)
        ensures
            music == self.spec_is_music(),
    {
        match self {
            AudioId::Goal | AudioId::MadeGoal => true,
            _ => false,
        }
    }

    /// The sound that goes with a payout of the given class.
    pub fn for_category(category: BonusCategory) -> (id: AudioId)
        ensures
            id == Self::spec_for_category(category),
    {
        match category {
            BonusCategory::High => AudioId::High,
            BonusCategory::Normal => AudioId::Normal,
            BonusCategory::Low => AudioId::Low,
        }
    }
}

/// Finds the sound or piece of music that a name stands for; any other text
/// has none.
pub fn get_audio(id: &str) -> (audio: Option<AudioId>)
    ensures
        audio == spec_audio_of(id@),
{
    if str_eq(id, "Money") {
        Some(AudioId::Money)
    } else if str_eq(id, "HookReset") {
        Some(AudioId::HookReset)
    } else if str_eq(id, "GrabStart") {
        Some(AudioId::GrabStart)
    } else if str_eq(id, "GrabBack") {
        Some(AudioId::GrabBack)
    } else if str_eq(id, "Explosive") {
        Some(AudioId::Explosive)
    } else if str_eq(id, "High") {
        Some(AudioId::High)
    } else if str_eq(id, "Normal") {
        Some(AudioId::Normal)
    } else if str_eq(id, "Low") {
        Some(AudioId::Low)
    } else if str_eq(id, "Goal") {
        Some(AudioId::Goal)
    } else if str_eq(id, "MadeGoal") {
        Some(AudioId::MadeGoal)
    } else {
        None
    }
}

/// Finds the sound that a name stands for; the name of a piece of music, like
/// any other text, has none.
pub fn get_sound(id: &str) -> (sound: Option<AudioId>)
    ensures
        sound == match spec_audio_of(id@) {
            Some(a) if !a.spec_is_music() => Some(a),
            _ => None,
        },
{
    match get_audio(id) {
        Some(a) => if a.is_music() {
            None
        } else {
            Some(a)
        },
        None => None,
    }
}

/// Finds the piece of music that a name stands for; the name of a sound, like
/// any other text, has none.
pub fn get_music(id: &str) -> (music: Option<AudioId>)
    ensures
        music == match spec_audio_of(id@) {
            Some(a) if a.spec_is_music() => Some(a),
            _ => None,
        },
{
    match get_audio(id) {
        Some(a) => if a.is_music() {
            Some(a)
        } else {
            None
        },
        None => None,
    }
}

/// No two sounds share a name.
pub proof fn lemma_names_differ()
    ensures
        spec_audio_of("Money"@) == Some(AudioId::Money),
        spec_audio_of("HookReset"@) == Some(AudioId::HookReset),
        spec_audio_of("GrabStart"@) == Some(AudioId::GrabStart),
        spec_audio_of("GrabBack"@) == Some(AudioId::GrabBack),
        spec_audio_of("Explosive"@) == Some(AudioId::Explosive),
        spec_audio_of("High"@) == Some(AudioId::High),
        spec_audio_of("Normal"@) == Some(AudioId::Normal),
        spec_audio_of("Low"@) == Some(AudioId::Low),
        spec_audio_of("Goal"@) == Some(AudioId::Goal),
        spec_audio_of("MadeGoal"@) == Some(AudioId::MadeGoal),
{
    reveal_strlit("Money");
    reveal_strlit("HookReset");
    reveal_strlit("GrabStart");
    reveal_strlit("GrabBack");
    reveal_strlit("Explosive");
    reveal_strlit("High");
    reveal_strlit("Normal");
    reveal_strlit("Low");
    reveal_strlit("Goal");
    reveal_strlit("MadeGoal");
    assert("Money"@.len() == 5);
    assert("HookReset"@.len() == 9 && "HookReset"@[0] == 'H');
    assert("GrabStart"@.len() == 9 && "GrabStart"@[0] == 'G');
    assert("GrabBack"@.len() == 8 && "GrabBack"@[0] == 'G');
    assert("Explosive"@.len() == 9 && "Explosive"@[0] == 'E');
    assert("High"@.len() == 4 && "High"@[0] == 'H');
    assert("Normal"@.len() == 6);
    assert("Low"@.len() == 3);
    assert("Goal"@.len() == 4 && "Goal"@[0] == 'G');
    assert("MadeGoal"@.len() == 8 && "MadeGoal"@[0] == 'M');
}

} // verus!
