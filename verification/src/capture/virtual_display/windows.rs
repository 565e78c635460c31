//! Virtual displays of an indirect display driver on Windows.
//!
//! The driver must be installed. It is opened as a device and answers two control
//! codes, one that makes a monitor and one that takes it away.

use crate::error::{ErrorView, MediaError};
use crate::text::{
    dec, dec_text, from_utf16, string_of, strip_back, text_of_wide, trim_back, CharClass,
};
use vstd::prelude::*;

verus! {

/// The control code that makes a monitor.
pub const IOCTL_IDD_CREATE_MONITOR: u32 = 0x222004;

/// The control code that takes a monitor away.
pub const IOCTL_IDD_DESTROY_MONITOR: u32 = 0x222008;

/// What the driver is asked for when a monitor is made. The adapter's name stays
/// empty.
#[derive(Debug, Clone, Copy, PartialEq, Eq, Structural)]
pub struct IddCreateMonitorRequest {
    pub width: u32,
    pub height: u32,
    pub refresh_rate: u32,
}

/// What the driver answers when a monitor is made.
#[derive(Debug)]
pub struct IddCreateMonitorResponse {
    pub display_id: u32,
    /// The device's name, filled up with zeros.
    pub device_name: Vec<u16>,
    pub success: u32,
}

/// A virtual display of the driver.
#[derive(Debug)]
pub struct WindowsVirtualDisplay {
    /// The driver's handle; `-1` when it is closed.
    pub driver_handle: i64,
    pub display_id: u32,
    pub device_name: String,
    pub active: bool,
}

/// The devices that a driver may stand behind, in the order they are tried.
pub open spec fn driver_paths() -> Seq<Seq<char>> {
    seq![
        "\\\\.\\IddSampleDriver"@,
        "\\\\.\\VirtualDisplayDriver"@,
        "\\\\.\\IddCxDriver"@,
    ]
}

/// How opening the driver goes on.
#[derive(Debug)]
pub enum DriverChoice {
    /// Open this device.
    Try(String),
    Failed(MediaError),
}

/// The error when no device could be opened.
pub open spec fn no_driver() -> ErrorView {
    ErrorView::CaptureError(
        "No IddCx virtual display driver found. Install usbmmidd or a compatible driver. See: https://github.com/ge9/IddSampleDriver"@,
    )
}

/// The device to open after `failed` of them could not be opened.
pub fn open_idd_driver(failed: usize) -> (r: DriverChoice)
    ensures
        match r {
            DriverChoice::Try(s) => failed < driver_paths().len() && s@
                == driver_paths()[failed as int],
            DriverChoice::Failed(e) => failed >= driver_paths().len() && e@ == no_driver(),
        },
{
    if failed == 0 {
        DriverChoice::Try("\\\\.\\IddSampleDriver".to_owned())
    } else if failed == 1 {
        DriverChoice::Try("\\\\.\\VirtualDisplayDriver".to_owned())
    } else if failed == 2 {
        DriverChoice::Try("\\\\.\\IddCxDriver".to_owned())
    } else {
        DriverChoice::Failed(
            MediaError::capture(
                "No IddCx virtual display driver found. Install usbmmidd or a compatible driver. See: https://github.com/ge9/IddSampleDriver",
            ),
        )
    }
}

/// What the driver is asked for.
pub fn create_request(width: u32, height: u32, fps: u32) -> (r: IddCreateMonitorRequest)
    ensures
        r == (IddCreateMonitorRequest { width, height, refresh_rate: fps }),
{
    IddCreateMonitorRequest { width, height, refresh_rate: fps }
}

/// The name in a buffer that is filled up with zeros.
pub open spec fn padded_name(buffer: Seq<u16>) -> Seq<char> {
    strip_back(from_utf16(buffer), CharClass::Null)
}

/// What is to be taken away and closed with a display, and the display then.
pub open spec fn taken_away(d: WindowsVirtualDisplay) -> (
    Option<(u32, i64)>,
    WindowsVirtualDisplay,
) {
    if d.active {
        (
            Some((d.display_id, d.driver_handle)),
            WindowsVirtualDisplay { driver_handle: -1i64, active: false, ..d },
        )
    } else {
        (None, d)
    }
}

/// Whether `r` is the display that the driver made.
pub open spec fn monitor_made(
    width: u32,
    height: u32,
    fps: u32,
    driver_handle: i64,
    response: Option<IddCreateMonitorResponse>,
    r: Result<WindowsVirtualDisplay, MediaError>,
) -> bool {
    match r {
        Ok(d) => response matches Some(a) && a.success != 0 && d.driver_handle
            == driver_handle && d.display_id == a.display_id && d.active
            && d.device_name@ == padded_name(a.device_name@),
        Err(e) => (response matches Some(a) ==> a.success == 0) && e@
            == ErrorView::CaptureError(
            "IddCx driver failed to create virtual display ("@ + dec(width as nat) + "x"@
                + dec(height as nat) + "@"@ + dec(fps as nat) + "fps)"@,
        ),
    }
}

impl WindowsVirtualDisplay {
    /// The display that the driver made; `None` where the request failed. On an
    /// error the driver's handle is to be closed.
    pub fn create(
        width: u32,
        height: u32,
        fps: u32,
        driver_handle: i64,
        response: Option<IddCreateMonitorResponse>,
    ) -> (r: Result<Self, MediaError>)
        ensures
            monitor_made(width, height, fps, driver_handle, response, r),
    {
        if let Some(a) = response {
            if a.success != 0 {
                let name: Vec<char> = text_of_wide(a.device_name.as_slice());
                let name: Vec<char> = trim_back(name.as_slice(), CharClass::Null);
                return Ok(
                    WindowsVirtualDisplay {
                        driver_handle,
                        display_id: a.display_id,
                        device_name: string_of(name.as_slice()),
                        active: true,
                    },
                );
            }
        }
        Err(
            MediaError::CaptureError(
                "IddCx driver failed to create virtual display (".to_owned().concat(
                    dec_text(width as u64).as_str(),
                ).concat("x").concat(dec_text(height as u64).as_str()).concat("@").concat(
                    dec_text(fps as u64).as_str(),
                ).concat("fps)"),
            ),
        )
    }

    /// The display's device name, such as `\\.\DISPLAY2`.
    pub fn display_id(&self) -> (s: &str)
        ensures
            s@ == self.device_name@,
    {
        self.device_name.as_str()
    }

    /// Takes the display down: the monitor that the driver is to take away, and
    /// the handle to close after it, whatever the driver answers. Nothing where
    /// the display is down.
    pub fn destroy(&mut self) -> (r: Option<(u32, i64)>)
        ensures
            (r, *final(self)) == taken_away(*old(self)),
    {
        if !self.active {
            return None;
        }
        let r: (u32, i64) = (self.display_id, self.driver_handle);
        self.driver_handle = -1;
        self.active = false;
        Some(r)
    }
}

/// A display that the driver made is taken away again by the driver's number for it, on the
/// handle that it was made through, and once: taking it down again does nothing. One that the
/// driver did not make is none.
pub proof fn law_a_monitor_is_taken_away_once(
    width: u32,
    height: u32,
    fps: u32,
    handle: i64,
    response: Option<IddCreateMonitorResponse>,
    r: Result<WindowsVirtualDisplay, MediaError>,
)
    requires
        monitor_made(width, height, fps, handle, response, r),
    ensures
        r is Ok <==> response is Some && response->0.success != 0,
        r is Ok ==> {
            let d = r->Ok_0;
            let (gone, after) = taken_away(d);
            &&& d.active && d.device_name@ == padded_name(response->0.device_name@)
            &&& gone == Some((response->0.display_id, handle))
            &&& !after.active
            &&& after.driver_handle == -1
            &&& taken_away(after).0 is None && taken_away(after).1 == after
            &&& after.device_name == d.device_name
        },
{
}

} // verus!
