//! The remote-control key vocabulary and its wire tokens.

use crate::text::push_char;
use vstd::prelude::*;
use vstd::string::*;

verus! {

/// A key of the remote control. `Lit` stands for typing one character.
#[derive(Debug, Clone, Copy, PartialEq, Eq, Structural)]
pub enum Key {
    Back,
    Backspace,
    ChannelDown,
    ChannelUp,
    Down,
    Enter,
    FindRemote,
    Fwd,
    Home,
    Info,
    InputAV1,
    InputHDMI1,
    InputHDMI2,
    InputHDMI3,
    InputHDMI4,
    InputTuner,
    InstantReplay,
    Left,
    Play,
    PowerOff,
    Rev,
    Right,
    Search,
    Select,
    Up,
    VolumeDown,
    VolumeMute,
    VolumeUp,
    Lit(char),
}

impl Key {
    /// The token that names this key in a request path: a named key is
    /// written as its own name, a literal as `Lit_` followed by the character.
    pub open spec fn token(self) -> Seq<char> {
        match self {
            Key::Back => "Back"@,
            Key::Backspace => "Backspace"@,
            Key::ChannelDown => "ChannelDown"@,
            Key::ChannelUp => "ChannelUp"@,
            Key::Down => "Down"@,
            Key::Enter => "Enter"@,
            Key::FindRemote => "FindRemote"@,
            Key::Fwd => "Fwd"@,
            Key::Home => "Home"@,
            Key::Info => "Info"@,
            Key::InputAV1 => "InputAV1"@,
            Key::InputHDMI1 => "InputHDMI1"@,
            Key::InputHDMI2 => "InputHDMI2"@,
            Key::InputHDMI3 => "InputHDMI3"@,
            Key::InputHDMI4 => "InputHDMI4"@,
            Key::InputTuner => "InputTuner"@,
            Key::InstantReplay => "InstantReplay"@,
            Key::Left => "Left"@,
            Key::Play => "Play"@,
            Key::PowerOff => "PowerOff"@,
            Key::Rev => "Rev"@,
            Key::Right => "Right"@,
            Key::Search => "Search"@,
            Key::Select => "Select"@,
            Key::Up => "Up"@,
            Key::VolumeDown => "VolumeDown"@,
            Key::VolumeMute => "VolumeMute"@,
            Key::VolumeUp => "VolumeUp"@,
            Key::Lit(c) => "Lit_"@.push(c),
        }
    }

    /// The wire token of this key.
    pub fn to_string(&self) -> (s: String)
        ensures
            s@ == self.token(),
    {
        match *self {
            Key::Back => String::from_str("Back"),
            Key::Backspace => String::from_str("Backspace"),
            Key::ChannelDown => String::from_str("ChannelDown"),
            Key::ChannelUp => String::from_str("ChannelUp"),
            Key::Down => String::from_str("Down"),
            Key::Enter => String::from_str("Enter"),
            Key::FindRemote => String::from_str("FindRemote"),
            Key::Fwd => String::from_str("Fwd"),
            Key::Home => String::from_str("Home"),
            Key::Info => String::from_str("Info"),
            Key::InputAV1 => String::from_str("InputAV1"),
            Key::InputHDMI1 => String::from_str("InputHDMI1"),
            Key::InputHDMI2 => String::from_str("InputHDMI2"),
            Key::InputHDMI3 => String::from_str("InputHDMI3"),
            Key::InputHDMI4 => String::from_str("InputHDMI4"),
            Key::InputTuner => String::from_str("InputTuner"),
            Key::InstantReplay => String::from_str("InstantReplay"),
            Key::Left => String::from_str("Left"),
            Key::Play => String::from_str("Play"),
            Key::PowerOff => String::from_str("PowerOff"),
            Key::Rev => String::from_str("Rev"),
            Key::Right => String::from_str("Right"),
            Key::Search => String::from_str("Search"),
            Key::Select => String::from_str("Select"),
            Key::Up => String::from_str("Up"),
            Key::VolumeDown => String::from_str("VolumeDown"),
            Key::VolumeMute => String::from_str("VolumeMute"),
            Key::VolumeUp => String::from_str("VolumeUp"),
            Key::Lit(c) => {
                let mut s = String::from_str("Lit_");
                push_char(&mut s, c);
                s
            },
        }
    }
}

/// The token of a literal key is the four characters `Lit_` and then the
/// character itself, unchanged.
pub proof fn lemma_literal_token(c: char)
    ensures
        Key::Lit(c).token() == seq!['L', 'i', 't', '_', c],
{
    reveal_strlit("Lit_");
    assert("Lit_"@.push(c) =~= seq!['L', 'i', 't', '_', c]);
}

/// Different keys have different tokens.
pub proof fn lemma_token_injective(a: Key, b: Key)
    requires
        a.token() == b.token(),
    ensures
        a == b,
{
    reveal_strlit("Back");
    reveal_strlit("Backspace");
    reveal_strlit("ChannelDown");
    reveal_strlit("ChannelUp");
    reveal_strlit("Down");
    reveal_strlit("Enter");
    reveal_strlit("FindRemote");
    reveal_strlit("Fwd");
    reveal_strlit("Home");
    reveal_strlit("Info");
    reveal_strlit("InputAV1");
    reveal_strlit("InputHDMI1");
    reveal_strlit("InputHDMI2");
    reveal_strlit("InputHDMI3");
    reveal_strlit("InputHDMI4");
    reveal_strlit("InputTuner");
    reveal_strlit("InstantReplay");
    reveal_strlit("Left");
    reveal_strlit("Play");
    reveal_strlit("PowerOff");
    reveal_strlit("Rev");
    reveal_strlit("Right");
    reveal_strlit("Search");
    reveal_strlit("Select");
    reveal_strlit("Up");
    reveal_strlit("VolumeDown");
    reveal_strlit("VolumeMute");
    reveal_strlit("VolumeUp");
    reveal_strlit("Lit_");
    let s = a.token();
    let t = b.token();
    assert(s.len() == t.len());
    if s.len() >= 1 {
        assert(s[0] == t[0]);
    }
    if s.len() >= 2 {
        assert(s[1] == t[1]);
    }
    if s.len() >= 5 {
        assert(s[4] == t[4]);
    }
    if s.len() >= 6 {
        assert(s[5] == t[5]);
    }
    if s.len() >= 7 {
        assert(s[6] == t[6]);
    }
    if s.len() >= 10 {
        assert(s[9] == t[9]);
    }
}

} // verus!
