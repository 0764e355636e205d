//! The enumerated settings of the camera: their device codes and the texts
//! that select them on the command line.
//!
//! Each setting is written either by its name (`AutoFrame`) or in lower case
//! with hyphens between words (`auto-frame`). Any other text is refused, so a
//! value of one of these types is always one the device understands.

use vstd::prelude::*;
use crate::failure::Failure;
use crate::text::same_text;

verus! {

/// The device-level output mode.
#[derive(Clone, Copy, Debug, PartialEq, Eq, Structural)]
pub enum MediaMode {
    Normal,
    Background,
    AutoFrame,
}

impl MediaMode {
    /// The number the device knows this mode by.
    pub open spec fn spec_code(self) -> int {
        match self {
            MediaMode::Normal => 0,
            MediaMode::Background => 1,
            MediaMode::AutoFrame => 2,
        }
    }

    /// The mode a device code stands for, if any.
    pub open spec fn spec_from_code(code: int) -> Option<MediaMode> {
        if code == 0 {
            Some(MediaMode::Normal)
        } else if code == 1 {
            Some(MediaMode::Background)
        } else if code == 2 {
            Some(MediaMode::AutoFrame)
        } else {
            None
        }
    }

    /// The mode that `text` selects, if any.
    pub open spec fn spec_parse(text: Seq<char>) -> Option<MediaMode> {
        if text == "Normal"@ || text == "normal"@ {
            Some(MediaMode::Normal)
        } else if text == "Background"@ || text == "background"@ {
            Some(MediaMode::Background)
        } else if text == "AutoFrame"@ || text == "auto-frame"@ {
            Some(MediaMode::AutoFrame)
        } else {
            None
        }
    }

    /// The mode's name.
    pub open spec fn spec_name(self) -> Seq<char> {
        match self {
            MediaMode::Normal => "Normal"@,
            MediaMode::Background => "Background"@,
            MediaMode::AutoFrame => "AutoFrame"@,
        }
    }

    /// The mode's name in lower case, with hyphens between its words.
    pub open spec fn spec_hyphenated(self) -> Seq<char> {
        match self {
            MediaMode::Normal => "normal"@,
            MediaMode::Background => "background"@,
            MediaMode::AutoFrame => "auto-frame"@,
        }
    }

    /// The number the device knows this mode by.
    pub fn code(self) -> (code: i32)
        ensures
            code == self.spec_code(),
    {
        match self {
            MediaMode::Normal => 0,
            MediaMode::Background => 1,
            MediaMode::AutoFrame => 2,
        }
    }

    /// The mode a device code stands for; `None` for a code that names no
    /// mode.
    pub fn from_code(code: i32) -> (mode: Option<MediaMode>)
        ensures
            mode == Self::spec_from_code(code as int),
    {
        if code == 0 {
            Some(MediaMode::Normal)
        } else if code == 1 {
            Some(MediaMode::Background)
        } else if code == 2 {
            Some(MediaMode::AutoFrame)
        } else {
            None
        }
    }

    /// The mode's name.
    pub fn name(self) -> (name: &'static str)
        ensures
            name@ == self.spec_name(),
    {
        match self {
            MediaMode::Normal => "Normal",
            MediaMode::Background => "Background",
            MediaMode::AutoFrame => "AutoFrame",
        }
    }

    /// Reads a mode from its command-line text. Fails with
    /// `InvalidArgument` exactly when the text selects no mode.
    pub fn parse(text: &str) -> (mode: Result<MediaMode, Failure>)
        ensures
            mode == match Self::spec_parse(text@) {
                Some(m) => Ok::<MediaMode, Failure>(m),
                None => Err(Failure::InvalidArgument),
            },
    {
        if same_text(text, "Normal") || same_text(text, "normal") {
            Ok(MediaMode::Normal)
        } else if same_text(text, "Background") || same_text(text, "background") {
            Ok(MediaMode::Background)
        } else if same_text(text, "AutoFrame") || same_text(text, "auto-frame") {
            Ok(MediaMode::AutoFrame)
        } else {
            Err(Failure::InvalidArgument)
        }
    }
}

/// Whom auto-framing follows.
#[derive(Clone, Copy, Debug, PartialEq, Eq, Structural)]
pub enum FramingType {
    Group,
    Single,
}

impl FramingType {
    /// The number the device knows this framing by.
    pub open spec fn spec_code(self) -> int {
        match self {
            FramingType::Group => 0,
            FramingType::Single => 1,
        }
    }

    /// The framing's name.
    pub open spec fn spec_name(self) -> Seq<char> {
        match self {
            FramingType::Group => "Group"@,
            FramingType::Single => "Single"@,
        }
    }

    /// The framing's name in lower case.
    pub open spec fn spec_hyphenated(self) -> Seq<char> {
        match self {
            FramingType::Group => "group"@,
            FramingType::Single => "single"@,
        }
    }

    /// The framing that `text` selects, if any.
    pub open spec fn spec_parse(text: Seq<char>) -> Option<FramingType> {
        if text == "Group"@ || text == "group"@ {
            Some(FramingType::Group)
        } else if text == "Single"@ || text == "single"@ {
            Some(FramingType::Single)
        } else {
            None
        }
    }

    /// The number the device knows this framing by.
    pub fn code(self) -> (code: i32)
        ensures
            code == self.spec_code(),
    {
        match self {
            FramingType::Group => 0,
            FramingType::Single => 1,
        }
    }

    /// Reads a framing from its command-line text. Fails with
    /// `InvalidArgument` exactly when the text selects no framing.
    pub fn parse(text: &str) -> (framing: Result<FramingType, Failure>)
        ensures
            framing == match Self::spec_parse(text@) {
                Some(f) => Ok::<FramingType, Failure>(f),
                None => Err(Failure::InvalidArgument),
            },
    {
        if same_text(text, "Group") || same_text(text, "group") {
            Ok(FramingType::Group)
        } else if same_text(text, "Single") || same_text(text, "single") {
            Ok(FramingType::Single)
        } else {
            Err(Failure::InvalidArgument)
        }
    }
}

/// A two-way switch, as used for HDR.
#[derive(Clone, Copy, Debug, PartialEq, Eq, Structural)]
pub enum Switch {
    Off,
    On,
}

impl Switch {
    /// The number the device knows this position by.
    pub open spec fn spec_code(self) -> int {
        match self {
            Switch::Off => 0,
            Switch::On => 1,
        }
    }

    /// The position's name.
    pub open spec fn spec_name(self) -> Seq<char> {
        match self {
            Switch::Off => "Off"@,
            Switch::On => "On"@,
        }
    }

    /// The position's name in lower case.
    pub open spec fn spec_hyphenated(self) -> Seq<char> {
        match self {
            Switch::Off => "off"@,
            Switch::On => "on"@,
        }
    }

    /// The position that `text` selects, if any.
    pub open spec fn spec_parse(text: Seq<char>) -> Option<Switch> {
        if text == "Off"@ || text == "off"@ {
            Some(Switch::Off)
        } else if text == "On"@ || text == "on"@ {
            Some(Switch::On)
        } else {
            None
        }
    }

    /// The number the device knows this position by.
    pub fn code(self) -> (code: i32)
        ensures
            code == self.spec_code(),
    {
        match self {
            Switch::Off => 0,
            Switch::On => 1,
        }
    }

    /// Reads a switch position from its command-line text. Fails with
    /// `InvalidArgument` exactly when the text selects no position.
    pub fn parse(text: &str) -> (switch: Result<Switch, Failure>)
        ensures
            switch == match Self::spec_parse(text@) {
                Some(s) => Ok::<Switch, Failure>(s),
                None => Err(Failure::InvalidArgument),
            },
    {
        if same_text(text, "Off") || same_text(text, "off") {
            Ok(Switch::Off)
        } else if same_text(text, "On") || same_text(text, "on") {
            Ok(Switch::On)
        } else {
            Err(Failure::InvalidArgument)
        }
    }
}

/// Exposure compensation keyed to the mains frequency.
#[derive(Clone, Copy, Debug, PartialEq, Eq, Structural)]
pub enum AntiFlicker {
    Off,
    Hz50,
    Hz60,
    Auto,
}

impl AntiFlicker {
    /// The level, from 0 to 3, that selects this setting.
    pub open spec fn spec_level(self) -> int {
        match self {
            AntiFlicker::Off => 0,
            AntiFlicker::Hz50 => 1,
            AntiFlicker::Hz60 => 2,
            AntiFlicker::Auto => 3,
        }
    }

    /// The setting that a level selects, if any.
    pub open spec fn spec_from_level(level: int) -> Option<AntiFlicker> {
        if level == 0 {
            Some(AntiFlicker::Off)
        } else if level == 1 {
            Some(AntiFlicker::Hz50)
        } else if level == 2 {
            Some(AntiFlicker::Hz60)
        } else if level == 3 {
            Some(AntiFlicker::Auto)
        } else {
            None
        }
    }

    /// The level, from 0 to 3, that selects this setting.
    pub fn level(self) -> (level: u32)
        ensures
            level == self.spec_level(),
    {
        match self {
            AntiFlicker::Off => 0,
            AntiFlicker::Hz50 => 1,
            AntiFlicker::Hz60 => 2,
            AntiFlicker::Auto => 3,
        }
    }

    /// The number the device knows this setting by: its level.
    pub fn code(self) -> (code: i32)
        ensures
            code == self.spec_level(),
    {
        match self {
            AntiFlicker::Off => 0,
            AntiFlicker::Hz50 => 1,
            AntiFlicker::Hz60 => 2,
            AntiFlicker::Auto => 3,
        }
    }

    /// The setting that `level` selects. Fails with `InvalidArgument` exactly
    /// when the level is above 3.
    pub fn from_level(level: u32) -> (setting: Result<AntiFlicker, Failure>)
        ensures
            setting is Ok <==> level <= 3,
            setting == match Self::spec_from_level(level as int) {
                Some(s) => Ok::<AntiFlicker, Failure>(s),
                None => Err(Failure::InvalidArgument),
            },
    {
        if level == 0 {
            Ok(AntiFlicker::Off)
        } else if level == 1 {
            Ok(AntiFlicker::Hz50)
        } else if level == 2 {
            Ok(AntiFlicker::Hz60)
        } else if level == 3 {
            Ok(AntiFlicker::Auto)
        } else {
            Err(Failure::InvalidArgument)
        }
    }
}

/// A media mode is found again from its device code.
pub proof fn lemma_media_mode_code_round_trip(mode: MediaMode)
    ensures
        MediaMode::spec_from_code(mode.spec_code()) == Some(mode),
        0 <= mode.spec_code() <= 2,
{
}

/// A text selects a media mode exactly when it is one of the two spellings
/// of that mode: its name or its hyphenated lower-case form.
pub proof fn lemma_media_mode_spellings(mode: MediaMode, text: Seq<char>)
    ensures
        MediaMode::spec_parse(text) == Some(mode) <==> text == mode.spec_name() || text
            == mode.spec_hyphenated(),
{
    reveal_strlit("Normal");
    reveal_strlit("normal");
    reveal_strlit("Background");
    reveal_strlit("background");
    reveal_strlit("AutoFrame");
    reveal_strlit("auto-frame");
    assert("Normal"@.len() == 6 && "normal"@.len() == 6);
    assert("Background"@.len() == 10 && "background"@.len() == 10);
    assert("AutoFrame"@.len() == 9 && "auto-frame"@.len() == 10);
    assert("Background"@[0] == 'B' && "background"@[0] == 'b' && "auto-frame"@[0] == 'a');
}

/// A text selects a framing exactly when it is one of the two spellings of
/// that framing: its name or its lower-case form.
pub proof fn lemma_framing_spellings(framing: FramingType, text: Seq<char>)
    ensures
        FramingType::spec_parse(text) == Some(framing) <==> text == framing.spec_name() || text
            == framing.spec_hyphenated(),
{
    reveal_strlit("Group");
    reveal_strlit("group");
    reveal_strlit("Single");
    reveal_strlit("single");
    assert("Group"@.len() == 5 && "group"@.len() == 5);
    assert("Single"@.len() == 6 && "single"@.len() == 6);
}

/// A text selects a switch position exactly when it is one of the two
/// spellings of that position: its name or its lower-case form.
pub proof fn lemma_switch_spellings(switch: Switch, text: Seq<char>)
    ensures
        Switch::spec_parse(text) == Some(switch) <==> text == switch.spec_name() || text
            == switch.spec_hyphenated(),
{
    reveal_strlit("Off");
    reveal_strlit("off");
    reveal_strlit("On");
    reveal_strlit("on");
    assert("Off"@.len() == 3 && "off"@.len() == 3);
    assert("On"@.len() == 2 && "on"@.len() == 2);
}

/// An anti-flicker setting is found again from its level, and the levels
/// that select a setting are exactly those from 0 to 3.
pub proof fn lemma_anti_flicker_levels(setting: AntiFlicker, level: int)
    ensures
        AntiFlicker::spec_from_level(setting.spec_level()) == Some(setting),
        0 <= setting.spec_level() <= 3,
        AntiFlicker::spec_from_level(level) is Some <==> 0 <= level <= 3,
{
}

} // verus!
