//! Media host core: encoder selection and bitstream handling, screen and
//! cursor capture decisions, audio framing, input mapping and the pipeline's
//! control rules. Everything that talks to a device lives outside this crate
//! and hands plain values in and out.

pub mod audio;
pub mod capture;
pub mod cursor;
pub mod decimal;
pub mod encode;
pub mod error;
pub mod input;
pub mod pipeline;
pub mod text;
pub mod types;

pub use crate::error::MediaError;
pub use crate::input::InputInjector;
pub use crate::pipeline::{MediaEvent, MediaPipeline, PipelineCommand};
pub use crate::types::{
    AudioCaptureConfig, CursorImage, CursorKind, CursorState, DisplayInfo, EncodedAudioFrame,
    EncodedVideoFrame, EncoderInfo, FrameType, HwAccelType, PixelFormat, StreamConfig, VideoCodec,
};
use vstd::prelude::*;

verus! {

/// Operating system that the host runs on.
#[derive(Debug, Clone, Copy, PartialEq, Eq, Structural)]
pub enum Platform {
    Linux,
    Windows,
    MacOs,
    Other,
}

} // verus!
