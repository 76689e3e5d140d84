//! Event definitions.
use vstd::prelude::*;
use crate::num::Scalar;

verus! {

/// A named event definition with its default payload.
#[derive(Debug, Clone, PartialEq)]
pub struct Event {
    /// The event name, unique in the skeleton.
    pub name: String,
    /// The integer value of the event.
    pub int: i32,
    /// The scalar value of the event.
    pub float: Scalar,
    /// The string value of the event, if any.
    pub string: Option<String>,
    /// The path to an audio file, when the event plays audio.
    pub audio_path: Option<String>,
    /// The volume used to play the audio file.
    pub audio_volume: Scalar,
    /// The stereo balance used to play the audio file.
    pub audio_balance: Scalar,
}

/// The mathematical value of an [`Event`] definition.
pub struct SpecEvent {
    pub name: Seq<char>,
    pub int: i32,
    pub float: Scalar,
    pub string: Option<Seq<char>>,
    pub audio_path: Option<Seq<char>>,
    pub audio_volume: Scalar,
    pub audio_balance: Scalar,
}

impl View for Event {
    type V = SpecEvent;

    open spec fn view(&self) -> SpecEvent {
        SpecEvent {
            name: self.name@,
            int: self.int,
            float: self.float,
            string: self.string.deep_view(),
            audio_path: self.audio_path.deep_view(),
            audio_volume: self.audio_volume,
            audio_balance: self.audio_balance,
        }
    }
}

impl DeepView for Event {
    type V = SpecEvent;

    open spec fn deep_view(&self) -> SpecEvent {
        self.view()
    }
}

} // verus!
