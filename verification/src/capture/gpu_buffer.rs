//! Frame buffers, on the GPU or in memory.

use crate::text::{chars_of, dec, dec_text, hex, hex_text, signed_dec, signed_text, string_of, upper_all, uppered};
use crate::types::PixelFormat;
use vstd::prelude::*;

verus! {

/// A raw frame. GPU resources are held by their handle or address.
#[derive(Debug)]
pub enum GpuBuffer {
    /// A shared buffer of the Linux kernel.
    DmaBuf {
        fd: i32,
        offset: u32,
        stride: u32,
        modifier: u64,
        size: usize,
        width: u32,
        height: u32,
        fourcc: u32,
    },
    /// Memory of a CUDA device.
    CudaPointer {
        ptr: usize,
        size: usize,
        width: u32,
        height: u32,
        stride: u32,
        format: PixelFormat,
    },
    /// A Direct3D 11 texture.
    D3D11Texture { texture: usize, array_index: u32 },
    /// A Core Video pixel buffer.
    CVPixelBuffer { pixel_buffer: usize },
    /// Bytes in memory.
    CpuBuffer { data: Vec<u8>, stride: u32, format: PixelFormat, width: u32, height: u32 },
}

/// The name of a pixel format.
pub open spec fn format_label(f: PixelFormat) -> Seq<char> {
    match f {
        PixelFormat::NV12 => "NV12"@,
        PixelFormat::BGRA => "BGRA"@,
        PixelFormat::P010 => "P010"@,
    }
}

/// `{width}x{height}`.
pub open spec fn size_text(width: u32, height: u32) -> Seq<char> {
    dec(width as nat) + "x"@ + dec(height as nat)
}

/// The short form of a buffer that logs show.
pub open spec fn buffer_label(b: GpuBuffer) -> Seq<char> {
    match b {
        GpuBuffer::DmaBuf { fd, width, height, .. } => "DmaBuf(fd="@ + signed_dec(fd as int) + ", "@
            + size_text(width, height) + ")"@,
        GpuBuffer::CudaPointer { ptr, width, height, .. } => "CudaPointer(ptr=0x"@ + upper_all(
            hex(ptr as nat, 1),
        ) + ", "@ + size_text(width, height) + ")"@,
        GpuBuffer::D3D11Texture { array_index, .. } => "D3D11Texture(index="@ + dec(
            array_index as nat,
        ) + ")"@,
        GpuBuffer::CVPixelBuffer { .. } => "CVPixelBuffer"@,
        GpuBuffer::CpuBuffer { width, height, format, .. } => "CpuBuffer("@ + size_text(
            width,
            height,
        ) + ", "@ + format_label(format) + ")"@,
    }
}

fn size_string(width: u32, height: u32) -> (s: String)
    ensures
        s@ == size_text(width, height),
{
    let h: String = dec_text(height as u64);
    dec_text(width as u64).concat("x").concat(h.as_str())
}

impl GpuBuffer {
    /// The short form that logs show.
    pub fn label(&self) -> (s: String)
        ensures
            s@ == buffer_label(*self),
    {
        match self {
            GpuBuffer::DmaBuf { fd, width, height, .. } => {
                let number: String = signed_text(*fd as i64);
                let size: String = size_string(*width, *height);
                "DmaBuf(fd=".to_owned().concat(number.as_str()).concat(", ").concat(
                    size.as_str(),
                ).concat(")")
            },
            GpuBuffer::CudaPointer { ptr, width, height, .. } => {
                let small: String = hex_text(*ptr as u64, 1);
                let chars: Vec<char> = chars_of(small.as_str());
                let caps: Vec<char> = uppered(chars.as_slice());
                let address: String = string_of(caps.as_slice());
                let size: String = size_string(*width, *height);
                "CudaPointer(ptr=0x".to_owned().concat(address.as_str()).concat(", ").concat(
                    size.as_str(),
                ).concat(")")
            },
            GpuBuffer::D3D11Texture { array_index, .. } => {
                let number: String = dec_text(*array_index as u64);
                "D3D11Texture(index=".to_owned().concat(number.as_str()).concat(")")
            },
            GpuBuffer::CVPixelBuffer { .. } => "CVPixelBuffer".to_owned(),
            GpuBuffer::CpuBuffer { width, height, format, .. } => {
                let size: String = size_string(*width, *height);
                let name: &str = match format {
                    PixelFormat::NV12 => "NV12",
                    PixelFormat::BGRA => "BGRA",
                    PixelFormat::P010 => "P010",
                };
                "CpuBuffer(".to_owned().concat(size.as_str()).concat(", ").concat(name).concat(")")
            },
        }
    }

    /// The file descriptor that has to be closed when the buffer goes away.
    pub fn owned_fd(&self) -> (r: Option<i32>)
        ensures
            r == (match *self {
                GpuBuffer::DmaBuf { fd, .. } if fd >= 0 => Some(fd),
                _ => None,
            }),
    {
        match self {
            GpuBuffer::DmaBuf { fd, .. } => if *fd >= 0 {
                Some(*fd)
            } else {
                None
            },
            _ => None,
        }
    }
}

} // verus!
