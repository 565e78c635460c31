//! Where the cursor is and what it looks like.

pub mod linux;
pub mod windows;

use crate::error::{ErrorView, MediaError};
use crate::types::CursorState;
use crate::Platform;
use vstd::prelude::*;

verus! {

/// A source of cursor states.
pub trait CursorCapture: Send {
    /// Starts following the cursor.
    fn start(&mut self) -> Result<(), MediaError>;

    /// Where the cursor is and what it looks like now.
    fn get_cursor_state(&mut self) -> Result<CursorState, MediaError>;

    /// Stops following the cursor.
    fn stop(&mut self) -> Result<(), MediaError>;
}

/// A platform's way to follow the cursor.
#[derive(Debug, Clone, Copy, PartialEq, Eq, Structural)]
pub enum CursorBackend {
    Linux,
    Windows,
    MacOs,
}

/// The way to follow the cursor on a platform.
pub fn create_cursor_capture(platform: Platform) -> (r: Result<CursorBackend, MediaError>)
    ensures
        match platform {
            Platform::Linux => r matches Ok(b) && b == CursorBackend::Linux,
            Platform::Windows => r matches Ok(b) && b == CursorBackend::Windows,
            Platform::MacOs => r matches Ok(b) && b == CursorBackend::MacOs,
            Platform::Other => r matches Err(e) && e@ == ErrorView::PlatformNotSupported(
                "Unsupported OS"@,
            ),
        },
{
    match platform {
        Platform::Linux => Ok(CursorBackend::Linux),
        Platform::Windows => Ok(CursorBackend::Windows),
        Platform::MacOs => Ok(CursorBackend::MacOs),
        Platform::Other => Err(MediaError::PlatformNotSupported("Unsupported OS".to_owned())),
    }
}

} // verus!
