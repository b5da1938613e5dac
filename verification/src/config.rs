//! Command-line choices: run mode and audio source selection.

use vstd::prelude::*;

use crate::audio::AudioSource;

verus! {

/// Run mode of the engine.
#[derive(Copy, Clone, Debug, PartialEq, Eq, Structural)]
pub enum Mode {
    /// Show the engine in a normal resizable window (best for development).
    Preview,
    /// Render as the live desktop wallpaper (behind icons).
    Wallpaper,
}

/// Audio choice as given on the command line.
#[derive(Copy, Clone, Debug, PartialEq, Eq, Structural)]
pub enum AudioArg {
    Auto,
    Input,
    Loopback,
    Off,
}

/// The capture source selected by a command-line audio choice (`None` = off).
pub open spec fn spec_source_of(a: AudioArg) -> Option<AudioSource> {
    match a {
        AudioArg::Off => None,
        AudioArg::Auto => Some(AudioSource::Auto),
        AudioArg::Input => Some(AudioSource::Input),
        AudioArg::Loopback => Some(AudioSource::Loopback),
    }
}

/// The command-line value name of an audio choice.
pub open spec fn spec_cli_name(a: AudioArg) -> Seq<char> {
    match a {
        AudioArg::Auto => seq!['a', 'u', 't', 'o'],
        AudioArg::Input => seq!['i', 'n', 'p', 'u', 't'],
        AudioArg::Loopback => seq!['l', 'o', 'o', 'p', 'b', 'a', 'c', 'k'],
        AudioArg::Off => seq!['o', 'f', 'f'],
    }
}

impl AudioArg {
    /// The capture source this choice selects; `Off` selects none.
    pub fn to_source(self) -> (r: Option<AudioSource>)
        ensures
            r == spec_source_of(self),
    {
        match self {
            AudioArg::Off => None,
            AudioArg::Auto => Some(AudioSource::Auto),
            AudioArg::Input => Some(AudioSource::Input),
            AudioArg::Loopback => Some(AudioSource::Loopback),
        }
    }

    /// The command-line value name, for spawning a wallpaper child process.
    pub fn as_cli(self) -> (r: &'static str)
        ensures
            r@ == spec_cli_name(self),
    {
        proof {
            reveal_strlit("auto");
            reveal_strlit("input");
            reveal_strlit("loopback");
            reveal_strlit("off");
        }
        match self {
            AudioArg::Auto => "auto",
            AudioArg::Input => "input",
            AudioArg::Loopback => "loopback",
            AudioArg::Off => "off",
        }
    }
}

/// Every audio choice has its own command-line name, so a child process that
/// parses the name back gets the same choice.
pub proof fn lemma_cli_names_distinct(a: AudioArg, b: AudioArg)
    ensures
        spec_cli_name(a) == spec_cli_name(b) ==> a == b,
{
    if a != b {
        let (x, y) = (spec_cli_name(a), spec_cli_name(b));
        if x.len() == y.len() {
            assert(x[0] != y[0] || x[1] != y[1]);
        }
    }
}

/// Only `Off` turns capture off, and distinct choices select distinct sources.
pub proof fn lemma_source_choice(a: AudioArg, b: AudioArg)
    ensures
        spec_source_of(a) is None <==> a == AudioArg::Off,
        spec_source_of(a) == spec_source_of(b) ==> a == b,
{
}

} // verus!
