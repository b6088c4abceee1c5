use vstd::prelude::*;
use crate::servo::ServoIntegrationError;

verus! {

/// OpenGL's `GL_RGBA8` format code.
pub const GL_RGBA8: u32 = 0x8058;

/// DRM's `ARGB8888` format code.
pub const DRM_FORMAT_ARGB8888: u32 = 0x34325241;

/// CoreVideo's 32-bit BGRA pixel format (`'BGRA'`).
pub const PIXEL_FORMAT_32BGRA: u32 = 0x42475241;

/// DXGI's `B8G8R8A8_UNORM` format code.
pub const DXGI_FORMAT_B8G8R8A8_UNORM: u32 = 87;

/// Memory of a texture shared through a file descriptor (Linux); no
/// descriptor is open (-1) until the memory is exported.
pub struct LinuxExternalMemory {
    pub fd: i32,
    pub size: usize,
    pub offset: u64,
    pub width: u32,
    pub height: u32,
    pub format: u32,
}

impl LinuxExternalMemory {
    /// Describe the memory of a `width` x `height` RGBA8 GL texture.
    pub fn from_gl_texture(_texture: u32, width: u32, height: u32) -> (r: Result<Self, ServoIntegrationError>)
        requires
            width * height * 4 <= u32::MAX,
        ensures
            r matches Ok(m) && m.fd == -1 && m.size == width * height * 4 && m.offset == 0 && m.width == width
                && m.height == height && m.format == GL_RGBA8,
    {
        Ok(LinuxExternalMemory {
            fd: -1,
            size: (width * height * 4) as usize,
            offset: 0,
            width,
            height,
            format: GL_RGBA8,
        })
    }
}

/// Describe a `width` x `height` ARGB8888 dmabuf surface.
pub fn create_dmabuf_surface(width: u32, height: u32) -> (r: Result<LinuxExternalMemory, ServoIntegrationError>)
    requires
        width * height * 4 <= u32::MAX,
    ensures
        r matches Ok(m) && m.fd == -1 && m.size == width * height * 4 && m.offset == 0 && m.width == width
            && m.height == height && m.format == DRM_FORMAT_ARGB8888,
{
    Ok(LinuxExternalMemory {
        fd: -1,
        size: (width * height * 4) as usize,
        offset: 0,
        width,
        height,
        format: DRM_FORMAT_ARGB8888,
    })
}

/// An IOSurface shared between OpenGL and Metal (macOS).
pub struct MacOSIOSurface {
    pub surface_id: u32,
    pub width: u32,
    pub height: u32,
    pub pixel_format: u32,
    pub bytes_per_row: usize,
}

impl MacOSIOSurface {
    /// Describe a `width` x `height` BGRA surface, four bytes per pixel.
    pub fn new(width: u32, height: u32) -> (r: Result<Self, ServoIntegrationError>)
        requires
            width * 4 <= usize::MAX,
        ensures
            r matches Ok(s) && s.surface_id == 0 && s.width == width && s.height == height && s.pixel_format
                == PIXEL_FORMAT_32BGRA && s.bytes_per_row == width * 4,
    {
        Ok(MacOSIOSurface {
            surface_id: 0,
            width,
            height,
            pixel_format: PIXEL_FORMAT_32BGRA,
            bytes_per_row: width as usize * 4,
        })
    }

    /// Bind the surface to a GL texture; always succeeds.
    pub fn bind_to_gl_texture(&self, _texture: u32) -> (r: Result<(), ServoIntegrationError>)
        ensures
            r is Ok,
    {
        Ok(())
    }

    /// Lock the surface; always succeeds.
    pub fn lock(&self, _read_only: bool) -> (r: Result<(), ServoIntegrationError>)
        ensures
            r is Ok,
    {
        Ok(())
    }

    /// Unlock the surface; always succeeds.
    pub fn unlock(&self) -> (r: Result<(), ServoIntegrationError>)
        ensures
            r is Ok,
    {
        Ok(())
    }
}

/// The surface registered under `surface_id`, of unknown size and format.
pub fn lookup_iosurface(surface_id: u32) -> (r: Result<MacOSIOSurface, ServoIntegrationError>)
    ensures
        r matches Ok(s) && s.surface_id == surface_id && s.width == 0 && s.height == 0 && s.pixel_format == 0
            && s.bytes_per_row == 0,
{
    Ok(MacOSIOSurface { surface_id, width: 0, height: 0, pixel_format: 0, bytes_per_row: 0 })
}

/// A texture shared between OpenGL and DirectX 11 (Windows); handles are 0
/// until registered.
pub struct WindowsDxInterop {
    pub dx_device: usize,
    pub dx_texture: usize,
    pub gl_texture: u32,
    pub interop_handle: usize,
    pub width: u32,
    pub height: u32,
    pub format: u32,
}

impl WindowsDxInterop {
    /// Describe a `width` x `height` BGRA8 shared texture.
    pub fn new(width: u32, height: u32) -> (r: Result<Self, ServoIntegrationError>)
        ensures
            r matches Ok(d) && d.dx_device == 0 && d.dx_texture == 0 && d.gl_texture == 0 && d.interop_handle == 0
                && d.width == width && d.height == height && d.format == DXGI_FORMAT_B8G8R8A8_UNORM,
    {
        Ok(WindowsDxInterop {
            dx_device: 0,
            dx_texture: 0,
            gl_texture: 0,
            interop_handle: 0,
            width,
            height,
            format: DXGI_FORMAT_B8G8R8A8_UNORM,
        })
    }

    /// Lock the texture for GL rendering; always succeeds.
    pub fn lock(&self) -> (r: Result<(), ServoIntegrationError>)
        ensures
            r is Ok,
    {
        Ok(())
    }

    /// Unlock the texture; always succeeds.
    pub fn unlock(&self) -> (r: Result<(), ServoIntegrationError>)
        ensures
            r is Ok,
    {
        Ok(())
    }

    /// The DXGI shared handle of the texture: the null handle, 0, since no
    /// shared resource is registered.
    pub fn get_shared_handle(&self) -> (r: Result<usize, ServoIntegrationError>)
        ensures
            r == Ok::<usize, ServoIntegrationError>(0),
    {
        Ok(0)
    }
}

/// A shared texture for DirectX interop (see [`WindowsDxInterop::new`]).
pub fn create_shared_texture(width: u32, height: u32) -> (r: Result<WindowsDxInterop, ServoIntegrationError>)
    ensures
        r matches Ok(d) && d.dx_device == 0 && d.dx_texture == 0 && d.gl_texture == 0 && d.interop_handle == 0
            && d.width == width && d.height == height && d.format == DXGI_FORMAT_B8G8R8A8_UNORM,
{
    WindowsDxInterop::new(width, height)
}

} // verus!
