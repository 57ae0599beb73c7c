//! The settings that the pages read and change. Reading them from disk and
//! writing them back is left to the program around the library.

use crate::models::kana::KanaRepresentation;
use vstd::prelude::*;
use vstd::std_specs::convert::FromSpecImpl;

verus! {

/// The script the user wants to be drilled in.
#[derive(Debug, Clone, Copy, PartialEq, Eq, Hash, Structural)]
pub enum WritingSystem {
    Hiragana,
    Katakana,
}

impl WritingSystem {
    /// The other script.
    pub open spec fn other(self) -> WritingSystem {
        match self {
            WritingSystem::Hiragana => WritingSystem::Katakana,
            WritingSystem::Katakana => WritingSystem::Hiragana,
        }
    }

    /// The writing system that a script stands for.
    pub open spec fn of(representation: KanaRepresentation) -> WritingSystem {
        match representation {
            KanaRepresentation::Hiragana => WritingSystem::Hiragana,
            KanaRepresentation::Katakana => WritingSystem::Katakana,
        }
    }

    /// The script in which the writing system is drawn.
    pub open spec fn representation(self) -> KanaRepresentation {
        match self {
            WritingSystem::Hiragana => KanaRepresentation::Hiragana,
            WritingSystem::Katakana => KanaRepresentation::Katakana,
        }
    }

    /// The script in which the writing system is drawn.
    pub fn to_representation(&self) -> (representation: KanaRepresentation)
        ensures
            representation == self.representation(),
    {
        match self {
            WritingSystem::Hiragana => KanaRepresentation::Hiragana,
            WritingSystem::Katakana => KanaRepresentation::Katakana,
        }
    }

    /// The other script.
    pub fn toggled(&self) -> (system: WritingSystem)
        ensures
            system == self.other(),
    {
        match self {
            WritingSystem::Hiragana => WritingSystem::Katakana,
            WritingSystem::Katakana => WritingSystem::Hiragana,
        }
    }
}

impl Default for WritingSystem {
    fn default() -> (system: WritingSystem)
        ensures
            system == WritingSystem::Hiragana,
    {
        WritingSystem::Hiragana
    }
}

/// The settings.
#[derive(Debug, Clone, Copy, PartialEq, Eq, Hash, Structural)]
pub struct Config {
    pub writing_system: WritingSystem,
    pub study_bold_kana: bool,
}

impl Config {
    /// The settings of a first start: hiragana, drawn in normal weight.
    pub open spec fn initial() -> Config {
        Config { writing_system: WritingSystem::Hiragana, study_bold_kana: false }
    }
}

impl Default for Config {
    fn default() -> (config: Config)
        ensures
            config == Config::initial(),
    {
        Config { writing_system: WritingSystem::Hiragana, study_bold_kana: false }
    }
}

impl From<KanaRepresentation> for WritingSystem {
    fn from(value: KanaRepresentation) -> (system: WritingSystem) {
        match value {
            KanaRepresentation::Hiragana => WritingSystem::Hiragana,
            KanaRepresentation::Katakana => WritingSystem::Katakana,
        }
    }
}

impl FromSpecImpl<KanaRepresentation> for WritingSystem {
    open spec fn obeys_from_spec() -> bool {
        true
    }

    open spec fn from_spec(value: KanaRepresentation) -> WritingSystem {
        WritingSystem::of(value)
    }
}

impl From<WritingSystem> for KanaRepresentation {
    fn from(value: WritingSystem) -> (representation: KanaRepresentation) {
        match value {
            WritingSystem::Hiragana => KanaRepresentation::Hiragana,
            WritingSystem::Katakana => KanaRepresentation::Katakana,
        }
    }
}

impl FromSpecImpl<WritingSystem> for KanaRepresentation {
    open spec fn obeys_from_spec() -> bool {
        true
    }

    open spec fn from_spec(value: WritingSystem) -> KanaRepresentation {
        value.representation()
    }
}

/// Script and writing system name the same two things: converting one into
/// the other and back changes nothing.
pub proof fn lemma_conversions_are_inverse(system: WritingSystem, representation: KanaRepresentation)
    ensures
        WritingSystem::of(system.representation()) == system,
        WritingSystem::of(representation).representation() == representation,
        system.other().other() == system,
        system.other() != system,
{
}

} // verus!
