//! Uploading a decoded frame into a newly allocated GPU texture.
//!
//! The GPU work itself is done by wgpu; the calls into it stand behind
//! trusted wrappers, and everything around them — validating the frame size
//! before any GPU call, expanding the frame to RGBA, sizing the copy — is
//! verified.

use vstd::prelude::*;
use crate::camera::{spec_consumed, NetworkCamera};
use crate::error::NokhwaError;
use crate::frame::FrameBuffer;

verus! {

#[verifier::external_type_specification]
#[verifier::external_body]
pub struct ExWgpuDevice(wgpu::Device);

#[verifier::external_type_specification]
#[verifier::external_body]
pub struct ExWgpuQueue(wgpu::Queue);

#[verifier::external_type_specification]
#[verifier::external_body]
pub struct ExWgpuTexture(wgpu::Texture);

/// A GPU texture holding one uploaded frame, together with the frame size
/// it was allocated for.  Its fields are private: the only way to obtain
/// one is the texture-creation wrapper, so the recorded size is always the
/// size the texture was actually allocated with.
pub struct FrameTexture {
    texture: wgpu::Texture,
    width: u32,
    height: u32,
}

impl FrameTexture {
    /// The width, in pixels, the texture was allocated for, at the
    /// specification level.
    pub closed spec fn spec_width(&self) -> u32 {
        self.width
    }

    /// The height, in pixels, the texture was allocated for, at the
    /// specification level.
    pub closed spec fn spec_height(&self) -> u32 {
        self.height
    }

    /// The width, in pixels, the texture was allocated for.
    pub fn width(&self) -> (r: u32)
        ensures
            r == self.spec_width(),
    {
        self.width
    }

    /// The height, in pixels, the texture was allocated for.
    pub fn height(&self) -> (r: u32)
        ensures
            r == self.spec_height(),
    {
        self.height
    }

    /// Hands the underlying GPU texture to the caller.
    pub fn into_texture(self) -> wgpu::Texture {
        self.texture
    }
}

/// A frame of size `w` by `h` can be uploaded to a device whose 2D texture
/// limit is `max_dim`: neither dimension is zero or above the limit, and a
/// row of RGBA bytes is representable.
pub open spec fn spec_upload_admissible(w: u32, h: u32, max_dim: u32) -> bool {
    0 < w <= max_dim && 0 < h <= max_dim && 4 * w <= u32::MAX
}

/// Decides whether a frame of size `width` by `height` can be uploaded to a
/// device whose 2D texture limit is `max_dim`.
pub fn upload_admissible(width: u32, height: u32, max_dim: u32) -> (r: bool)
    ensures
        r == spec_upload_admissible(width, height, max_dim),
{
    0 < width && width <= max_dim && 0 < height && height <= max_dim && width <= u32::MAX / 4
}

/// Relies on wgpu's `Device::limits`: reports the limits the device was
/// created with, among them the largest allowed 2D texture dimension.
#[verifier::external_body]
fn device_max_texture_dimension_2d(device: &wgpu::Device) -> u32 {
    device.limits().max_texture_dimension_2d
}

/// Relies on wgpu's `Device::create_texture` and `Device::limits`: allocates
/// a 2D texture of the given size — 8-bit RGBA with sRGB interpretation, one
/// mip level, one sample, usable as a sampling source and copy destination.
/// `create_texture` rejects a zero dimension and anything beyond the
/// device's 2D texture limit, so the body refuses exactly those sizes
/// first, before any GPU call, and returns `None` instead of letting the
/// rejection surface as a fault.
#[verifier::external_body]
fn create_rgba_texture(device: &wgpu::Device, width: u32, height: u32, label: Option<&str>) -> (r:
    Option<FrameTexture>)
    ensures
        r matches Some(t) ==> t.spec_width() == width && t.spec_height() == height,
{
    let limit = device.limits().max_texture_dimension_2d;
    if width == 0 || height == 0 || width > limit || height > limit {
        return None;
    }
    let texture = device.create_texture(&wgpu::TextureDescriptor {
        label,
        size: wgpu::Extent3d { width, height, depth_or_array_layers: 1 },
        mip_level_count: 1,
        sample_count: 1,
        dimension: wgpu::TextureDimension::D2,
        format: wgpu::TextureFormat::Rgba8UnormSrgb,
        usage: wgpu::TextureUsages::TEXTURE_BINDING | wgpu::TextureUsages::COPY_DST,
        view_formats: &[],
    });
    Some(FrameTexture { texture, width, height })
}

/// Relies on wgpu's `Queue::write_texture`: copies the RGBA bytes into the
/// whole texture, rows of `bytes_per_row` bytes — required to be exactly
/// one tightly packed row, four bytes per pixel.  The queue must belong to
/// the device the texture was allocated on; that pairing cannot be stated
/// over the opaque handles and remains an obligation on the caller.
#[verifier::external_body]
fn write_rgba_texture(queue: &wgpu::Queue, t: &FrameTexture, data: &Vec<u8>, bytes_per_row: u32)
    requires
        1 <= t.spec_width(),
        1 <= t.spec_height(),
        bytes_per_row == 4 * t.spec_width(),
        data@.len() == 4 * t.spec_width() * t.spec_height(),
{
    queue.write_texture(
        wgpu::TexelCopyTextureInfo {
            texture: &t.texture,
            mip_level: 0,
            origin: wgpu::Origin3d::ZERO,
            aspect: wgpu::TextureAspect::All,
        },
        data.as_slice(),
        wgpu::TexelCopyBufferLayout {
            offset: 0,
            bytes_per_row: Some(bytes_per_row),
            rows_per_image: Some(t.height),
        },
        wgpu::Extent3d { width: t.width, height: t.height, depth_or_array_layers: 1 },
    );
}

/// Converts the frame to RGBA and copies it into a newly allocated GPU
/// texture on the given device and its queue — the queue must belong to
/// that device.  `max_dim` should be the device's reported 2D texture
/// limit; a frame with a zero dimension, or one beyond `max_dim`, is
/// rejected before any GPU call is made.  The texture-creation wrapper
/// independently refuses sizes the device rejects, so an overstated
/// `max_dim` yields the same validation error, never a GPU fault — which is
/// why success cannot be promised even for admissible frames.
pub fn upload_frame(
    frame: &FrameBuffer,
    max_dim: u32,
    device: &wgpu::Device,
    queue: &wgpu::Queue,
    label: Option<&str>,
) -> (r: Result<FrameTexture, NokhwaError>)
    requires
        frame.wf(),
    ensures
        !spec_upload_admissible(frame.resolution.width, frame.resolution.height, max_dim) ==> r
            is Err,
        r matches Ok(t) ==> (t.spec_width() == frame.resolution.width && t.spec_height()
            == frame.resolution.height && spec_upload_admissible(
            frame.resolution.width,
            frame.resolution.height,
            max_dim,
        )),
        r is Err ==> (r matches Err(NokhwaError::ReadFrameError(_))),
{
    let width = frame.width();
    let height = frame.height();
    if !upload_admissible(width, height, max_dim) {
        return Err(NokhwaError::ReadFrameError(
            "frame cannot be uploaded: a dimension is zero or beyond the device limit"
                .to_string(),
        ));
    }
    proof {
        assert(frame.data@.len() % 3 == 0 && frame.data@.len() / 3 * 4 == 4 * width * height
            && frame.data@.len() / 3 * 4 <= usize::MAX) by (nonlinear_arith)
            requires
                frame.data@.len() == 3 * width * height,
                4 * width * height <= usize::MAX,
        ;
    }
    let rgba = crate::frame::rgb_to_rgba(&frame.data);
    let texture = match create_rgba_texture(device, width, height, label) {
        Some(t) => t,
        None => {
            return Err(NokhwaError::ReadFrameError(
                "the device rejected a texture of the frame's size".to_string(),
            ));
        },
    };
    let bytes_per_row = 4 * width;
    write_rgba_texture(queue, &texture, &rgba, bytes_per_row);
    Ok(texture)
}

impl NetworkCamera {
    /// Fetches the pending frame, converts it to RGBA, and copies it into a
    /// newly allocated GPU texture on the given device and its queue — the
    /// queue must belong to that device.  A frame with a zero dimension, or
    /// one beyond the device's reported 2D texture limit, is rejected
    /// before any GPU call is made.
    pub fn frame_texture(
        &mut self,
        device: &wgpu::Device,
        queue: &wgpu::Queue,
        label: Option<&str>,
    ) -> (r: Result<FrameTexture, NokhwaError>)
        requires
            old(self).wf(),
        ensures
            final(self).wf(),
            final(self).ip == old(self).ip,
            (!old(self).device.stream_open || old(self).device.pending_frame is None) ==> (r
                matches Err(NokhwaError::ReadFrameError(_)) && *final(self) == *old(self)),
            old(self).device.stream_open ==> (old(self).device.pending_frame matches Some(f) ==> (
            final(self).device == spec_consumed(old(self).device) && ((f.resolution.width == 0
                || f.resolution.height == 0) ==> (r matches Err(NokhwaError::ReadFrameError(_))))
                && (r matches Ok(t) ==> (t.spec_width() == f.resolution.width && t.spec_height()
                == f.resolution.height && f.resolution.width > 0 && f.resolution.height > 0)))),
    {
        let frame = match self.frame() {
            Ok(f) => f,
            Err(e) => return Err(e),
        };
        let max_dim = device_max_texture_dimension_2d(device);
        upload_frame(&frame, max_dim, device, queue, label)
    }
}

} // verus!
