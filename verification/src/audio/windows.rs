//! Capture of the sound of a Windows host, by loopback of its default output.

use crate::audio::AudioSession;
use crate::error::{ErrorView, MediaError};
use vstd::prelude::*;

verus! {

/// The sound of a Windows host.
#[derive(Debug, Clone, Copy, PartialEq, Eq, Structural)]
pub struct WindowsAudioCapture {
    pub session: AudioSession,
}

/// Whether there is a device to capture from.
pub fn check_source(default_output: bool) -> (r: Result<(), MediaError>)
    ensures
        match r {
            Ok(()) => default_output,
            Err(e) => !default_output && e@ == ErrorView::AudioError(
                "No default output device for loopback"@,
            ),
        },
{
    if default_output {
        Ok(())
    } else {
        Err(MediaError::audio("No default output device for loopback"))
    }
}

impl WindowsAudioCapture {
    /// A capture that has not started, on a host with a default output.
    pub fn new(default_output: bool) -> (r: Result<Self, MediaError>)
        ensures
            match r {
                Ok(c) => default_output && c.session == (AudioSession {
                    capturing: false,
                    shutdown: false,
                }),
                Err(e) => !default_output && e@ == ErrorView::AudioError(
                    "No default output device found for WASAPI loopback capture."@,
                ),
            },
    {
        if default_output {
            Ok(WindowsAudioCapture { session: AudioSession::new() })
        } else {
            Err(
                MediaError::audio("No default output device found for WASAPI loopback capture."),
            )
        }
    }
}

} // verus!
