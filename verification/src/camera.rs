//! The capture facade: a network address bound to a model of the opened
//! capture device.
//!
//! The device model mirrors the capture-device provider this facade
//! delegates to: it is opened for an address, a stream is started and
//! stopped on it, it reports its current resolution, and it serves the most
//! recently delivered decoded frame.  The layer that performs the actual
//! network reads hands each decoded frame to the model with
//! [`CaptureDevice::deliver_frame`]; reading a frame consumes it.

use vstd::prelude::*;
use vstd::string::StrSliceExecFns;
use crate::error::NokhwaError;
use crate::frame::{FrameBuffer, Resolution};

verus! {

/// The device model's validity rule for a network address: it accepts
/// exactly the non-empty addresses.  A real provider can additionally fail
/// to connect to a well-formed address; that failure lies outside this
/// model.
pub open spec fn valid_address(a: Seq<char>) -> bool {
    a.len() > 0
}

/// The model of an opened capture device: its negotiated resolution, whether
/// a stream is being delivered, and the most recently delivered frame that
/// has not been read yet.
#[derive(Debug)]
pub struct CaptureDevice {
    pub resolution: Resolution,
    pub stream_open: bool,
    pub pending_frame: Option<FrameBuffer>,
}

/// The state of a device directly after opening: no stream, no frame, and a
/// zero resolution until the first frame arrives.
pub open spec fn spec_fresh_device() -> CaptureDevice {
    CaptureDevice {
        resolution: Resolution { width: 0, height: 0 },
        stream_open: false,
        pending_frame: None,
    }
}

/// The given device with its stream marked open; nothing else changes.
pub open spec fn spec_opened(d: CaptureDevice) -> CaptureDevice {
    CaptureDevice { resolution: d.resolution, stream_open: true, pending_frame: d.pending_frame }
}

/// The given device with its stream marked closed; nothing else changes.
pub open spec fn spec_stopped(d: CaptureDevice) -> CaptureDevice {
    CaptureDevice { resolution: d.resolution, stream_open: false, pending_frame: d.pending_frame }
}

/// The given device after a decoded frame arrived: the frame is pending and
/// the device resolution follows the frame.
pub open spec fn spec_delivered(d: CaptureDevice, f: FrameBuffer) -> CaptureDevice {
    CaptureDevice {
        resolution: f.resolution,
        stream_open: d.stream_open,
        pending_frame: Some(f),
    }
}

/// The given device after its pending frame was read.
pub open spec fn spec_consumed(d: CaptureDevice) -> CaptureDevice {
    CaptureDevice { resolution: d.resolution, stream_open: d.stream_open, pending_frame: None }
}

/// Law: stopping a stream is idempotent, so a second `stop_stream` in a row
/// leaves the device exactly as the first one did.
pub proof fn lemma_stop_stream_idempotent(d: CaptureDevice)
    ensures
        spec_stopped(spec_stopped(d)) == spec_stopped(d),
{
}

impl CaptureDevice {
    /// The pending frame, if any, matches the device resolution and is well
    /// formed, and the resolution itself admits RGB and RGBA buffers.
    pub open spec fn wf(&self) -> bool {
        &&& self.resolution.admissible()
        &&& (self.pending_frame matches Some(f) ==> f.wf() && f.resolution == self.resolution)
    }

    /// Opens a device for a network address; an invalid (empty) address is
    /// rejected.
    pub fn open(address: &str) -> (r: Result<CaptureDevice, NokhwaError>)
        ensures
            r is Ok <==> valid_address(address@),
            r matches Ok(d) ==> d == spec_fresh_device() && d.wf(),
            r is Err ==> (r matches Err(NokhwaError::OpenDeviceError(_))),
    {
        if address.unicode_len() == 0 {
            return Err(NokhwaError::OpenDeviceError("empty network address".to_string()));
        }
        Ok(CaptureDevice { resolution: Resolution::new(0, 0), stream_open: false, pending_frame: None })
    }

    /// Begins active frame delivery.
    pub fn open_stream(&mut self) -> (r: Result<(), NokhwaError>)
        ensures
            r is Ok,
            *final(self) == spec_opened(*old(self)),
    {
        self.stream_open = true;
        Ok(())
    }

    /// Ends active frame delivery.  Safe to call in any state, repeatedly.
    pub fn stop_stream(&mut self) -> (r: Result<(), NokhwaError>)
        ensures
            r is Ok,
            *final(self) == spec_stopped(*old(self)),
        opens_invariants none
        no_unwind
    {
        self.stream_open = false;
        Ok(())
    }

    /// The resolution the device currently delivers.
    pub fn current_resolution(&self) -> (r: Resolution)
        ensures
            r == self.resolution,
    {
        self.resolution
    }

    /// Accepts a decoded frame from the layer performing the network reads;
    /// it becomes the pending frame and fixes the device resolution.
    pub fn deliver_frame(&mut self, frame: FrameBuffer)
        requires
            frame.wf(),
        ensures
            *final(self) == spec_delivered(*old(self), frame),
            final(self).wf(),
    {
        self.resolution = frame.resolution();
        self.pending_frame = Some(frame);
    }

    /// Reads the pending decoded frame, consuming it.  Fails when the stream
    /// was never opened (or was stopped), and when no frame has been
    /// delivered since the last read.
    pub fn read_frame(&mut self) -> (r: Result<FrameBuffer, NokhwaError>)
        requires
            old(self).wf(),
        ensures
            final(self).wf(),
            (!old(self).stream_open || old(self).pending_frame is None) ==> (r matches Err(
                NokhwaError::ReadFrameError(_),
            ) && *final(self) == *old(self)),
            old(self).stream_open ==> (old(self).pending_frame matches Some(f) ==> (r == Ok::<
                FrameBuffer,
                NokhwaError,
            >(f) && *final(self) == spec_consumed(*old(self)))),
            r matches Ok(f) ==> f.wf() && f.resolution == old(self).resolution,
    {
        if !self.stream_open {
            return Err(NokhwaError::ReadFrameError("stream is not open".to_string()));
        }
        match self.pending_frame.take() {
            Some(frame) => Ok(frame),
            None => Err(NokhwaError::ReadFrameError("no frame has been delivered".to_string())),
        }
    }
}

/// A network (IP) camera: a capture facade over a device opened for a
/// network address.
#[derive(Debug)]
pub struct NetworkCamera {
    pub ip: String,
    pub device: CaptureDevice,
}

/// A camera as `new` (or `set_ip`) leaves it when opening the device for
/// `address` succeeded: it stores that address, bound to a freshly opened
/// device.
pub open spec fn constructed_for(c: NetworkCamera, address: Seq<char>) -> bool {
    c.ip@ == address && c.device == spec_fresh_device()
}

/// Law: a camera constructed for an address reports exactly that address
/// back, which is what `ip` returns.
pub proof fn lemma_constructed_address_round_trip(c: NetworkCamera, address: Seq<char>)
    requires
        constructed_for(c, address),
    ensures
        c.ip@ == address,
{
}

/// The number of bytes one frame at resolution `res` occupies: three bytes
/// per pixel as RGB, four as RGBA.
pub open spec fn spec_min_buffer_size(res: Resolution, rgba: bool) -> int {
    if rgba {
        4 * res.width * res.height
    } else {
        3 * res.width * res.height
    }
}

/// The bytes `frame_to_buffer` writes for a frame: its RGB data as is, or
/// its RGBA expansion.
pub open spec fn spec_frame_payload(f: FrameBuffer, rgba: bool) -> Seq<u8> {
    if rgba {
        crate::frame::spec_rgb_to_rgba(f.data@)
    } else {
        f.data@
    }
}

/// Law: the bytes written for a frame depend on the frame's bytes alone, so
/// two `frame_to_buffer` calls that serve byte-identical frames with the
/// same conversion flag write identical prefixes and return equal counts,
/// whatever the pixel values are.
pub proof fn lemma_frame_payload_deterministic(f1: FrameBuffer, f2: FrameBuffer, rgba: bool)
    requires
        f1.data@ == f2.data@,
    ensures
        spec_frame_payload(f1, rgba) == spec_frame_payload(f2, rgba),
{
}

impl NetworkCamera {
    /// The stored address opened successfully, and the device model is well
    /// formed.
    pub open spec fn wf(&self) -> bool {
        self.device.wf()
    }

    /// Creates a new camera from a network address, opening a capture device
    /// for it.  Fails exactly when the address is invalid.
    pub fn new(ip: String) -> (r: Result<NetworkCamera, NokhwaError>)
        ensures
            r is Ok <==> valid_address(ip@),
            r matches Ok(c) ==> constructed_for(c, ip@) && c.wf(),
            r is Err ==> (r matches Err(NokhwaError::OpenDeviceError(_))),
    {
        let device = match CaptureDevice::open(ip.as_str()) {
            Ok(d) => d,
            Err(e) => return Err(e),
        };
        Ok(NetworkCamera { ip, device })
    }

    /// The stored network address.
    pub fn ip(&self) -> (r: String)
        ensures
            r@ == self.ip@,
    {
        self.ip.clone()
    }

    /// Replaces the device by opening a new one for `ip`, then stores `ip`.
    /// On failure the previously opened device and the stored address are
    /// left untouched.
    pub fn set_ip(&mut self, ip: String) -> (r: Result<(), NokhwaError>)
        ensures
            r is Ok <==> valid_address(ip@),
            r is Ok ==> constructed_for(*final(self), ip@) && final(self).wf(),
            r is Err ==> (r matches Err(NokhwaError::OpenDeviceError(_)) && *final(self) == *old(
                self,
            )),
    {
        let device = match CaptureDevice::open(ip.as_str()) {
            Ok(d) => d,
            Err(e) => return Err(e),
        };
        self.device = device;
        self.ip = ip;
        Ok(())
    }

    /// Begins active frame delivery on the underlying device.
    pub fn open_stream(&mut self) -> (r: Result<(), NokhwaError>)
        ensures
            r is Ok,
            final(self).ip == old(self).ip,
            final(self).device == spec_opened(old(self).device),
    {
        self.device.open_stream()
    }

    /// Ends active frame delivery.  Safe to call repeatedly, and before the
    /// stream was ever opened.
    pub fn stop_stream(&mut self) -> (r: Result<(), NokhwaError>)
        ensures
            r is Ok,
            final(self).ip == old(self).ip,
            final(self).device == spec_stopped(old(self).device),
        opens_invariants none
        no_unwind
    {
        self.device.stop_stream()
    }

    /// Hands a decoded frame to the underlying device model; the layer that
    /// performs the actual network reads calls this.
    pub fn deliver_frame(&mut self, frame: FrameBuffer)
        requires
            frame.wf(),
        ensures
            final(self).ip == old(self).ip,
            final(self).device == spec_delivered(old(self).device, frame),
            final(self).wf(),
    {
        self.device.deliver_frame(frame);
    }

    /// Retrieves the most recently delivered frame, decoded as RGB,
    /// consuming it.  Fails when the stream is not open or no frame is
    /// pending.
    pub fn frame(&mut self) -> (r: Result<FrameBuffer, NokhwaError>)
        requires
            old(self).wf(),
        ensures
            final(self).wf(),
            final(self).ip == old(self).ip,
            (!old(self).device.stream_open || old(self).device.pending_frame is None) ==> (r
                matches Err(NokhwaError::ReadFrameError(_)) && *final(self) == *old(self)),
            old(self).device.stream_open ==> (old(self).device.pending_frame matches Some(f) ==> (
            r == Ok::<FrameBuffer, NokhwaError>(f) && final(self).device == spec_consumed(
                old(self).device,
            ))),
            r matches Ok(f) ==> f.wf() && f.resolution == old(self).device.resolution,
    {
        self.device.read_frame()
    }

    /// The minimum buffer size needed to receive the current frame: RGB
    /// bytes by default, RGBA bytes if `rgba` is set.
    pub fn min_buffer_size(&self, rgba: bool) -> (r: usize)
        requires
            self.wf(),
        ensures
            r == spec_min_buffer_size(self.device.resolution, rgba),
    {
        let w = self.device.resolution.width as usize;
        let h = self.device.resolution.height as usize;
        proof {
            assert(w * h <= usize::MAX && (w * h) * 4 == 4 * w * h && (w * h) * 3 == 3 * w * h
                && (w * h) * 3 <= (w * h) * 4) by (nonlinear_arith)
                requires
                    0 <= w,
                    0 <= h,
                    4 * w * h <= usize::MAX,
            ;
        }
        let pixels = w * h;
        if rgba {
            pixels * 4
        } else {
            pixels * 3
        }
    }

    /// Fetches the pending frame and writes it into the caller's buffer,
    /// expanded to RGBA if `convert_rgba` is set; returns the number of
    /// bytes written.  A buffer smaller than `min_buffer_size` is rejected
    /// before anything is written or consumed.
    pub fn frame_to_buffer(&mut self, buffer: &mut Vec<u8>, convert_rgba: bool) -> (r: Result<
        usize,
        NokhwaError,
    >)
        requires
            old(self).wf(),
        ensures
            final(self).wf(),
            final(self).ip == old(self).ip,
            old(buffer)@.len() < spec_min_buffer_size(old(self).device.resolution, convert_rgba)
                ==> (r matches Err(NokhwaError::ProcessFrameError(_))
                    && *final(self) == *old(self)
                    && final(buffer)@ == old(buffer)@),
            old(buffer)@.len() >= spec_min_buffer_size(old(self).device.resolution, convert_rgba)
                && (!old(self).device.stream_open || old(self).device.pending_frame is None)
                ==> (r matches Err(NokhwaError::ReadFrameError(_))
                    && *final(self) == *old(self)
                    && final(buffer)@ == old(buffer)@),
            old(buffer)@.len() >= spec_min_buffer_size(old(self).device.resolution, convert_rgba)
                && old(self).device.stream_open
                ==> (old(self).device.pending_frame matches Some(f) ==> r matches Ok(n)
                    && n == spec_min_buffer_size(old(self).device.resolution, convert_rgba)
                    && final(self).device == spec_consumed(old(self).device)
                    && final(buffer)@ == spec_frame_payload(f, convert_rgba)
                        + old(buffer)@.skip(
                            spec_min_buffer_size(old(self).device.resolution, convert_rgba))
                    && final(buffer)@.len() == old(buffer)@.len()),
    {
        let need = self.min_buffer_size(convert_rgba);
        if buffer.len() < need {
            return Err(NokhwaError::ProcessFrameError(
                "buffer is smaller than the minimum buffer size".to_string(),
            ));
        }
        let frame = match self.frame() {
            Ok(f) => f,
            Err(e) => return Err(e),
        };
        let ghost res = frame.resolution;
        let data = if convert_rgba {
            proof {
                assert(frame.data@.len() % 3 == 0 && frame.data@.len() / 3 * 4 == 4 * res.width
                    * res.height && frame.data@.len() / 3 * 4 <= usize::MAX) by (nonlinear_arith)
                    requires
                        frame.data@.len() == 3 * res.width * res.height,
                        4 * res.width * res.height <= usize::MAX,
                ;
            }
            crate::frame::rgb_to_rgba(&frame.data)
        } else {
            frame.data
        };
        proof {
            assert(data@.len() == need);
        }
        let mut j: usize = 0;
        while j < need
            invariant
                j <= need,
                need == data@.len(),
                need <= buffer@.len(),
                buffer@.len() == old(buffer)@.len(),
                forall|k: int| 0 <= k < j ==> buffer@[k] == data@[k],
                forall|k: int| j <= k < buffer@.len() ==> buffer@[k] == old(buffer)@[k],
            decreases need - j,
        {
            buffer[j] = data[j];
            j = j + 1;
        }
        proof {
            assert(buffer@ =~= data@ + old(buffer)@.skip(need as int));
        }
        Ok(need)
    }

    /// Re-reading the negotiated format is not supported for this device;
    /// the capability is surfaced as an explicit error, never as wrong data.
    pub fn refresh_camera_format(&mut self) -> (r: Result<(), NokhwaError>)
        ensures
            r matches Err(NokhwaError::NotImplementedError(_)),
            *final(self) == *old(self),
    {
        Err(NokhwaError::NotImplementedError("refresh camera format".to_string()))
    }

    /// Choosing a resolution is not supported for this device, which
    /// delivers frames at the resolution the stream decodes to; the
    /// capability is surfaced as an explicit error, never as wrong data.
    pub fn set_resolution(&mut self, new_res: Resolution) -> (r: Result<(), NokhwaError>)
        ensures
            r matches Err(NokhwaError::NotImplementedError(_)),
            *final(self) == *old(self),
    {
        let _ = new_res;
        Err(NokhwaError::NotImplementedError("set resolution".to_string()))
    }

    /// Reading the frame rate is not supported for this device; the
    /// capability is surfaced as an explicit error, never as wrong data.
    pub fn frame_rate(&self) -> (r: Result<u32, NokhwaError>)
        ensures
            r matches Err(NokhwaError::NotImplementedError(_)),
    {
        Err(NokhwaError::NotImplementedError("frame rate".to_string()))
    }

    /// Choosing a frame rate is not supported for this device; the
    /// capability is surfaced as an explicit error, never as wrong data.
    pub fn set_frame_rate(&mut self, new_fps: u32) -> (r: Result<(), NokhwaError>)
        ensures
            r matches Err(NokhwaError::NotImplementedError(_)),
            *final(self) == *old(self),
    {
        let _ = new_fps;
        Err(NokhwaError::NotImplementedError("set frame rate".to_string()))
    }
}

impl Drop for NetworkCamera {
    /// Teardown stops the stream as a best effort; an error from stopping is
    /// discarded, never propagated.
    fn drop(&mut self)
        opens_invariants none
        no_unwind
    {
        let _ = self.stop_stream();
    }
}

} // verus!
