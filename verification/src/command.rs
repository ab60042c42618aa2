//! Playback commands and their mathematical view.

use vstd::prelude::*;

verus! {

/// A playback request, immutable once constructed. `PlaySound` carries the
/// logical name of a sound (for example "start" or "beep"); the worker maps
/// that name to a concrete resource. `StopAll` silences whatever is active.
pub enum AudioCommand {
    PlaySound(String),
    StopAll,
}

/// The mathematical view of a command: the sound name as a sequence of
/// characters, with no other state.
pub enum CommandView {
    Play { id: Seq<char> },
    Stop,
}

impl View for AudioCommand {
    type V = CommandView;

    open spec fn view(&self) -> CommandView {
        match self {
            AudioCommand::PlaySound(name) => CommandView::Play { id: name@ },
            AudioCommand::StopAll => CommandView::Stop,
        }
    }
}

} // verus!
