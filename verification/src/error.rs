//! The error type of the media host.

use crate::text::{dec_text, signed_dec, signed_text};
use vstd::prelude::*;

verus! {

/// What can go wrong while capturing, encoding or streaming.
#[derive(Debug, Clone, PartialEq, Eq)]
pub enum MediaError {
    /// No suitable display was found.
    NoDisplayFound,
    /// An operation needs a running capture.
    CaptureNotStarted,
    /// A capture is running already.
    CaptureAlreadyStarted,
    /// No encoder of the wanted kind exists.
    NoEncoderAvailable,
    /// An operation needs an initialized encoder.
    EncoderNotInitialized,
    EncoderInitFailed(String),
    CaptureError(String),
    EncodeError(String),
    AudioError(String),
    CursorError(String),
    PipelineError(String),
    /// An FFmpeg call returned an error code.
    FfmpegError { code: i32, message: String },
    PlatformNotSupported(String),
    PermissionDenied(String),
    Timeout,
    FrameDropped,
    /// An input or output operation failed, with the system's description.
    Io(String),
}

/// A [`MediaError`] with its texts as character sequences.
pub enum ErrorView {
    NoDisplayFound,
    CaptureNotStarted,
    CaptureAlreadyStarted,
    NoEncoderAvailable,
    EncoderNotInitialized,
    EncoderInitFailed(Seq<char>),
    CaptureError(Seq<char>),
    EncodeError(Seq<char>),
    AudioError(Seq<char>),
    CursorError(Seq<char>),
    PipelineError(Seq<char>),
    FfmpegError(int, Seq<char>),
    PlatformNotSupported(Seq<char>),
    PermissionDenied(Seq<char>),
    Timeout,
    FrameDropped,
    Io(Seq<char>),
}

impl View for MediaError {
    type V = ErrorView;

    open spec fn view(&self) -> ErrorView {
        match *self {
            MediaError::NoDisplayFound => ErrorView::NoDisplayFound,
            MediaError::CaptureNotStarted => ErrorView::CaptureNotStarted,
            MediaError::CaptureAlreadyStarted => ErrorView::CaptureAlreadyStarted,
            MediaError::NoEncoderAvailable => ErrorView::NoEncoderAvailable,
            MediaError::EncoderNotInitialized => ErrorView::EncoderNotInitialized,
            MediaError::EncoderInitFailed(s) => ErrorView::EncoderInitFailed(s@),
            MediaError::CaptureError(s) => ErrorView::CaptureError(s@),
            MediaError::EncodeError(s) => ErrorView::EncodeError(s@),
            MediaError::AudioError(s) => ErrorView::AudioError(s@),
            MediaError::CursorError(s) => ErrorView::CursorError(s@),
            MediaError::PipelineError(s) => ErrorView::PipelineError(s@),
            MediaError::FfmpegError { code, message } => ErrorView::FfmpegError(
                code as int,
                message@,
            ),
            MediaError::PlatformNotSupported(s) => ErrorView::PlatformNotSupported(s@),
            MediaError::PermissionDenied(s) => ErrorView::PermissionDenied(s@),
            MediaError::Timeout => ErrorView::Timeout,
            MediaError::FrameDropped => ErrorView::FrameDropped,
            MediaError::Io(s) => ErrorView::Io(s@),
        }
    }
}

/// The message that describes `e`.
pub open spec fn message(e: ErrorView) -> Seq<char> {
    match e {
        ErrorView::NoDisplayFound => "No display found"@,
        ErrorView::CaptureNotStarted => "Capture not started"@,
        ErrorView::CaptureAlreadyStarted => "Capture already started"@,
        ErrorView::NoEncoderAvailable => "No hardware encoder available"@,
        ErrorView::EncoderNotInitialized => "Encoder not initialized"@,
        ErrorView::EncoderInitFailed(s) => "Encoder initialization failed: "@ + s,
        ErrorView::CaptureError(s) => "Capture error: "@ + s,
        ErrorView::EncodeError(s) => "Encode error: "@ + s,
        ErrorView::AudioError(s) => "Audio error: "@ + s,
        ErrorView::CursorError(s) => "Cursor error: "@ + s,
        ErrorView::PipelineError(s) => "Pipeline error: "@ + s,
        ErrorView::FfmpegError(code, s) => "FFmpeg error: "@ + signed_dec(code) + " - "@ + s,
        ErrorView::PlatformNotSupported(s) => "Platform not supported: "@ + s,
        ErrorView::PermissionDenied(s) => "Permission denied: "@ + s,
        ErrorView::Timeout => "Timeout"@,
        ErrorView::FrameDropped => "Frame dropped"@,
        ErrorView::Io(s) => "IO error: "@ + s,
    }
}

fn joined(front: &str, back: &str) -> (s: String)
    ensures
        s@ == front@ + back@,
{
    front.to_owned().concat(back)
}

impl MediaError {
    /// The message that describes the error.
    pub fn to_string(&self) -> (s: String)
        ensures
            s@ == message(self@),
    {
        match self {
            MediaError::NoDisplayFound => "No display found".to_owned(),
            MediaError::CaptureNotStarted => "Capture not started".to_owned(),
            MediaError::CaptureAlreadyStarted => "Capture already started".to_owned(),
            MediaError::NoEncoderAvailable => "No hardware encoder available".to_owned(),
            MediaError::EncoderNotInitialized => "Encoder not initialized".to_owned(),
            MediaError::EncoderInitFailed(s) => joined(
                "Encoder initialization failed: ",
                s.as_str(),
            ),
            MediaError::CaptureError(s) => joined("Capture error: ", s.as_str()),
            MediaError::EncodeError(s) => joined("Encode error: ", s.as_str()),
            MediaError::AudioError(s) => joined("Audio error: ", s.as_str()),
            MediaError::CursorError(s) => joined("Cursor error: ", s.as_str()),
            MediaError::PipelineError(s) => joined("Pipeline error: ", s.as_str()),
            MediaError::FfmpegError { code, message } => {
                let number: String = signed_text(*code as i64);
                joined("FFmpeg error: ", number.as_str()).concat(" - ").concat(message.as_str())
            },
            MediaError::PlatformNotSupported(s) => joined("Platform not supported: ", s.as_str()),
            MediaError::PermissionDenied(s) => joined("Permission denied: ", s.as_str()),
            MediaError::Timeout => "Timeout".to_owned(),
            MediaError::FrameDropped => "Frame dropped".to_owned(),
            MediaError::Io(s) => joined("IO error: ", s.as_str()),
        }
    }

    /// An initialization failure with the given text.
    pub fn init_failed(text: &str) -> (e: MediaError)
        ensures
            e@ == ErrorView::EncoderInitFailed(text@),
    {
        MediaError::EncoderInitFailed(text.to_owned())
    }

    /// A capture error with the given text.
    pub fn capture(text: &str) -> (e: MediaError)
        ensures
            e@ == ErrorView::CaptureError(text@),
    {
        MediaError::CaptureError(text.to_owned())
    }

    /// An encode error with the given text.
    pub fn encode(text: &str) -> (e: MediaError)
        ensures
            e@ == ErrorView::EncodeError(text@),
    {
        MediaError::EncodeError(text.to_owned())
    }

    /// An audio error with the given text.
    pub fn audio(text: &str) -> (e: MediaError)
        ensures
            e@ == ErrorView::AudioError(text@),
    {
        MediaError::AudioError(text.to_owned())
    }

    /// A cursor error with the given text.
    pub fn cursor(text: &str) -> (e: MediaError)
        ensures
            e@ == ErrorView::CursorError(text@),
    {
        MediaError::CursorError(text.to_owned())
    }
}

/// `{front}{number}`: a text that ends in a status number.
pub fn with_number(front: &str, n: i64) -> (s: String)
    ensures
        s@ == front@ + signed_dec(n as int),
{
    let number: String = signed_text(n);
    joined(front, number.as_str())
}

/// `{front}{number}{back}`: a text around a count.
pub fn around_number(front: &str, n: u64, back: &str) -> (s: String)
    ensures
        s@ == front@ + crate::text::dec(n as nat) + back@,
{
    let number: String = dec_text(n);
    joined(front, number.as_str()).concat(back)
}

} // verus!
