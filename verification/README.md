# lunaris_media

The media core of a remote desktop host: it captures a screen, encodes it, takes
sound and the cursor along, and plays a viewer's input back on the host. Its
logic is verified with Verus.

## Layout

- `src/` is the library. Its functions have contracts, and Verus proves them. Three
  wrappers are taken on trust: `push_char` and `char_of` in `text` for calls of the
  standard library, and `known_fourcc` in `capture::linux_drm` for the `drm-fourcc`
  crate. The library holds no device, socket or process: calls to the system are planned by
  the library, performed by its caller, and their results handed back as plain
  values.
  - `encode`: choice and options of encoders, the steps of the FFmpeg encoder and
    of the native Windows ones (NVENC, AMF, QSV), Annex-B headers, copies between
    planes.
  - `capture`: X11, DRM, NvFBC, Wayland and Windows captures, import of shared
    buffers through EGL, cursor overlays, virtual displays.
  - `cursor`, `audio`, `input`: cursor shapes and pictures, framing of sound,
    key tables and pointer scaling.
  - `pipeline`: what starts and stops when, which ticks are encoded, what
    commands change, refresh rates.
  - `text`, `decimal`, `error`, `types`: the texts, numbers, errors and values that
    the rest shares.
- `app/` is a Linux host around the library: it opens devices, runs the tasks and
  carries the steps out. The rules for Windows hosts are in the library too; a
  host there performs the same steps with the system's own calls.
- `tests/` runs the library on concrete values, against the constants of the
  crates that it describes where it restates them.

## Laws

Properties that span several functions are public proof functions whose names
begin with `law_`, at the end of the module that they speak of.
