//! Capture of the sound of a Linux host, from the monitor of its default output.

use crate::audio::AudioSession;
use crate::error::{ErrorView, MediaError};
use crate::text::{chars_of, contains_text, lower_all, lowered, occurs};
use vstd::prelude::*;

verus! {

/// The sound of a Linux host.
#[derive(Debug, Clone, Copy, PartialEq, Eq, Structural)]
pub struct LinuxAudioCapture {
    pub session: AudioSession,
}

/// The device that sound is captured from.
#[derive(Debug, Clone, Copy, PartialEq, Eq, Structural)]
pub enum SourceDevice {
    /// The default input device.
    DefaultInput,
    /// The input device at this place of the list.
    Input(usize),
}

/// Whether a device is a monitor, by its name.
pub open spec fn is_monitor(name: Option<String>) -> bool {
    name matches Some(n) && occurs("monitor"@, lower_all(n@))
}

/// Whether this is the device to capture from.
pub open spec fn source_chosen(
    default_input: bool,
    inputs: Seq<Option<String>>,
    d: SourceDevice,
) -> bool {
    match d {
        SourceDevice::Input(i) => i < inputs.len() && is_monitor(inputs[i as int]) && (forall|
            j: int,
        |
            0 <= j < i ==> !is_monitor(#[trigger] inputs[j])),
        SourceDevice::DefaultInput => default_input && (forall|j: int|
            0 <= j < inputs.len() ==> !is_monitor(#[trigger] inputs[j])),
    }
}

/// Chooses the device to capture from: the first monitor among the inputs, and
/// the default input only where there is none. A device without a name is no
/// monitor.
pub fn choose_source(default_input: bool, inputs: &Vec<Option<String>>) -> (r: Result<
    SourceDevice,
    MediaError,
>)
    ensures
        match r {
            Ok(d) => source_chosen(default_input, inputs@, d),
            Err(e) => !default_input && (forall|j: int|
                0 <= j < inputs@.len() ==> !is_monitor(#[trigger] inputs@[j])) && e@
                == ErrorView::AudioError(
                "No loopback/monitor audio device found. On PulseAudio, ensure the default output sink has a .monitor source. On PipeWire, ensure the PulseAudio compatibility layer is active."@,
            ),
        },
{
    for i in 0..inputs.len()
        invariant
            forall|j: int| 0 <= j < i ==> !is_monitor(#[trigger] inputs@[j]),
    {
        if let Some(n) = &inputs[i] {
            let text: Vec<char> = chars_of(n.as_str());
            let small: Vec<char> = lowered(text.as_slice());
            if contains_text(small.as_slice(), "monitor") {
                return Ok(SourceDevice::Input(i));
            }
        }
    }
    if default_input {
        return Ok(SourceDevice::DefaultInput);
    }
    Err(
        MediaError::audio(
            "No loopback/monitor audio device found. On PulseAudio, ensure the default output sink has a .monitor source. On PipeWire, ensure the PulseAudio compatibility layer is active.",
        ),
    )
}

impl LinuxAudioCapture {
    /// A capture that has not started, on a host with a default output.
    pub fn new(default_output: bool) -> (r: Result<Self, MediaError>)
        ensures
            match r {
                Ok(c) => default_output && c.session == (AudioSession {
                    capturing: false,
                    shutdown: false,
                }),
                Err(e) => !default_output && e@ == ErrorView::AudioError(
                    "No default output device found. On Linux, ensure PulseAudio or PipeWire (with PulseAudio compat) is running and has a default output sink configured."@,
                ),
            },
    {
        if default_output {
            Ok(LinuxAudioCapture { session: AudioSession::new() })
        } else {
            Err(
                MediaError::audio(
                    "No default output device found. On Linux, ensure PulseAudio or PipeWire (with PulseAudio compat) is running and has a default output sink configured.",
                ),
            )
        }
    }
}

/// Sound is captured from a monitor where there is one, so from what is played and not from a
/// microphone: the device that is chosen has monitor in its name, in letters of either size,
/// and is the first that has. The default input is taken only where none has.
pub proof fn law_what_is_played_is_captured(
    default_input: bool,
    inputs: Seq<Option<String>>,
    d: SourceDevice,
    k: int,
)
    requires
        source_chosen(default_input, inputs, d),
        0 <= k < inputs.len(),
        inputs[k] is Some,
        occurs("monitor"@, lower_all(inputs[k]->0@)),
    ensures
        d is Input && d->0 <= k,
        inputs[d->0 as int] is Some && occurs("monitor"@, lower_all(inputs[d->0 as int]->0@)),
{
    assert(is_monitor(inputs[k]));
}

} // verus!
