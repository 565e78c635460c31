//! Virtual displays: monitors that exist in software only.
//!
//! On Linux they stand on outputs that xrandr manages, on Windows an indirect
//! display driver makes them.

pub mod linux;
pub mod windows;

use crate::capture::command::{replies_of, CommandReply};
use crate::capture::virtual_display::linux::{create_plan, CreateStep, VirtualDisplay};
use crate::capture::virtual_display::windows::{
    driver_paths, no_driver, open_idd_driver, padded_name, DriverChoice, IddCreateMonitorResponse,
    WindowsVirtualDisplay,
};
use crate::error::{ErrorView, MediaError};
use crate::text::dec;
use crate::Platform;
use vstd::prelude::*;

verus! {

/// The life of a platform's virtual display. A display looks like a real monitor
/// to the system, so a screen capture can take it.
pub trait DisplayManager: Sized {
    /// Makes a display of the given size and rate.
    fn create(width: u32, height: u32, fps: u32) -> Result<Self, MediaError>;

    /// The platform's name for the display.
    fn display_id(&self) -> &str;

    /// Takes the display down.
    fn destroy(&mut self) -> Result<(), MediaError>;
}

/// A virtual display of any platform.
pub trait VirtualDisplayHandle: Send {
    /// The platform's name for the display.
    fn display_id(&self) -> &str;

    /// Takes the display down.
    fn destroy(&mut self) -> Result<(), MediaError>;
}

/// What has come back from the system while a display is made.
#[derive(Debug)]
pub enum CreateProgress {
    /// On Linux: the replies of the programs run so far.
    Programs(Vec<CommandReply>),
    /// On Windows: how many devices could not be opened.
    Opening(usize),
    /// On Windows: the opened driver's handle and its answer, `None` where the
    /// request failed.
    Requested(i64, Option<IddCreateMonitorResponse>),
}

/// How the making of a display goes on.
#[derive(Debug)]
pub enum VirtualDisplayStep {
    Linux(CreateStep),
    /// Open a device of the driver.
    OpenDriver(DriverChoice),
    Windows(Result<WindowsVirtualDisplay, MediaError>),
    Failed(MediaError),
}

/// The replies of the programs run so far.
pub open spec fn programs_of(progress: CreateProgress) -> Seq<CommandReply> {
    match progress {
        CreateProgress::Programs(replies) => replies@,
        _ => Seq::empty(),
    }
}

/// How making a virtual display goes on: on Linux and Windows by the platform's
/// own steps, elsewhere not at all. What another platform's steps brought counts
/// as nothing.
pub fn create_virtual_display(
    platform: Platform,
    width: u32,
    height: u32,
    fps: u32,
    progress: CreateProgress,
) -> (r: VirtualDisplayStep)
    ensures
        match platform {
            Platform::Linux => r matches VirtualDisplayStep::Linux(s) && s@ == create_plan(
                width,
                height,
                fps,
                replies_of(programs_of(progress)),
            ),
            Platform::Windows => match progress {
                CreateProgress::Requested(handle, answer) => match r {
                    VirtualDisplayStep::Windows(Ok(d)) => answer matches Some(a) && a.success != 0
                        && d.driver_handle == handle && d.display_id == a.display_id && d.active
                        && d.device_name@ == padded_name(a.device_name@),
                    VirtualDisplayStep::Windows(Err(e)) => (answer matches Some(a) ==> a.success
                        == 0) && e@ == ErrorView::CaptureError(
                        "IddCx driver failed to create virtual display ("@ + dec(width as nat)
                            + "x"@ + dec(height as nat) + "@"@ + dec(fps as nat) + "fps)"@,
                    ),
                    _ => false,
                },
                _ => {
                    let n = match progress {
                        CreateProgress::Opening(n) => n as int,
                        _ => 0,
                    };
                    r matches VirtualDisplayStep::OpenDriver(c) && if n < driver_paths().len() {
                        c matches DriverChoice::Try(s) && s@ == driver_paths()[n]
                    } else {
                        c matches DriverChoice::Failed(e) && e@ == no_driver()
                    }
                },
            },
            _ => r matches VirtualDisplayStep::Failed(e) && e@ == ErrorView::PlatformNotSupported(
                "Virtual display not supported on this platform"@,
            ),
        },
{
    match platform {
        Platform::Linux => {
            let replies: Vec<CommandReply> = match progress {
                CreateProgress::Programs(replies) => replies,
                _ => Vec::new(),
            };
            VirtualDisplayStep::Linux(VirtualDisplay::create(width, height, fps, &replies))
        },
        Platform::Windows => match progress {
            CreateProgress::Requested(handle, answer) => VirtualDisplayStep::Windows(
                WindowsVirtualDisplay::create(width, height, fps, handle, answer),
            ),
            CreateProgress::Opening(n) => VirtualDisplayStep::OpenDriver(open_idd_driver(n)),
            CreateProgress::Programs(_) => VirtualDisplayStep::OpenDriver(open_idd_driver(0)),
        },
        _ => VirtualDisplayStep::Failed(
            MediaError::PlatformNotSupported(
                "Virtual display not supported on this platform".to_owned(),
            ),
        ),
    }
}

} // verus!
