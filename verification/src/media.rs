//! Background music for the waiting room.
use vstd::prelude::*;
use crate::text::{append_str, chars_of, string_of};

verus! {

/// The Windows Script Host program that plays `track` in a loop for an hour.
pub open spec fn music_script_of(track: Seq<char>) -> Seq<char> {
    "Set Wmp = CreateObject(\"WMPlayer.OCX\")\nWmp.URL = \""@ + track
        + "\"\nWmp.settings.setMode \"loop\", True\nWmp.controls.play\nDo While Wmp.playState <> 1\nWScript.Sleep 1000\nLoop\nWScript.Sleep 3600000"@
}

/// Writes the player program for `track`.
pub fn music_script(track: &str) -> (r: String)
    ensures
        r@ == music_script_of(track@),
{
    let mut v = chars_of("Set Wmp = CreateObject(\"WMPlayer.OCX\")\nWmp.URL = \"");
    append_str(&mut v, track);
    append_str(
        &mut v,
        "\"\nWmp.settings.setMode \"loop\", True\nWmp.controls.play\nDo While Wmp.playState <> 1\nWScript.Sleep 1000\nLoop\nWScript.Sleep 3600000",
    );
    string_of(&v)
}

/// What the music hotkey does.
#[derive(Clone, Copy, Debug, PartialEq, Eq, Structural)]
pub enum MusicAction {
    /// Start the player.
    Play,
    /// Stop the player.
    Stop,
}

/// Whether the background music plays.
#[derive(Clone, Copy, Debug, PartialEq, Eq, Structural)]
pub struct MusicState {
    /// The player is running.
    pub playing: bool,
}

/// The state after the music hotkey.
pub open spec fn toggled(s: MusicState) -> MusicState {
    MusicState { playing: !s.playing }
}

impl MusicState {
    /// No music at first.
    pub fn new() -> (r: MusicState)
        ensures
            !r.playing,
    {
        MusicState { playing: false }
    }

    /// The music hotkey: stops the music when it plays and starts it
    /// otherwise, and records the new state.
    pub fn toggle(&mut self) -> (r: MusicAction)
        ensures
            *final(self) == toggled(*old(self)),
            r == if old(self).playing { MusicAction::Stop } else { MusicAction::Play },
    {
        let r = toggle_music(self.playing);
        self.playing = !self.playing;
        r
    }

    /// The music is stopped (when the waiting room closes).
    pub fn stop(&mut self)
        ensures
            !final(self).playing,
    {
        self.playing = false;
    }
}

/// Pressing the music hotkey twice leaves the music as it was.
pub proof fn lemma_toggle_twice(s: MusicState)
    ensures
        toggled(toggled(s)) == s,
{
}

/// The hotkey stops the music when it plays and starts it otherwise.
pub fn toggle_music(playing: bool) -> (r: MusicAction)
    ensures
        r == if playing { MusicAction::Stop } else { MusicAction::Play },
{
    if playing {
        MusicAction::Stop
    } else {
        MusicAction::Play
    }
}

} // verus!
