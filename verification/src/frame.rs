//! Resolutions and decoded frame buffers, with the RGB to RGBA expansion.

use vstd::prelude::*;
use crate::error::NokhwaError;

verus! {

/// A device resolution: a frame is `width * height` pixels, row-major.
#[derive(Clone, Copy, Debug, PartialEq, Eq, Structural)]
pub struct Resolution {
    pub width: u32,
    pub height: u32,
}

impl Resolution {
    /// Even an RGBA buffer (four bytes per pixel) for this resolution fits in
    /// a machine-sized length.
    pub open spec fn admissible(&self) -> bool {
        4 * self.width * self.height <= usize::MAX
    }

    pub fn new(width: u32, height: u32) -> (r: Resolution)
        ensures
            r.width == width,
            r.height == height,
    {
        Resolution { width, height }
    }

    pub fn width(&self) -> (r: u32)
        ensures
            r == self.width,
    {
        self.width
    }

    pub fn height(&self) -> (r: u32)
        ensures
            r == self.height,
    {
        self.height
    }
}

/// One decoded RGB frame: three bytes per pixel, row-major, sized by its
/// resolution.
#[derive(Clone, Debug, PartialEq, Eq)]
pub struct FrameBuffer {
    pub resolution: Resolution,
    pub data: Vec<u8>,
}

impl FrameBuffer {
    /// The data holds exactly three bytes per pixel, and the resolution is
    /// small enough that the RGBA expansion also fits in memory.
    pub open spec fn wf(&self) -> bool {
        self.data@.len() == 3 * self.resolution.width * self.resolution.height
            && self.resolution.admissible()
    }

    /// Wraps decoded RGB bytes as a frame of the given resolution; rejects
    /// data whose length does not match the resolution, and resolutions so
    /// large that an RGBA copy could not be addressed.
    pub fn new(resolution: Resolution, data: Vec<u8>) -> (r: Result<FrameBuffer, NokhwaError>)
        ensures
            r matches Ok(f) ==> f.resolution == resolution && f.data == data && f.wf(),
            r is Ok <==> (data@.len() == 3 * resolution.width * resolution.height
                && resolution.admissible()),
            r is Err ==> r matches Err(NokhwaError::ProcessFrameError(_)),
    {
        let w = resolution.width as usize;
        let h = resolution.height as usize;
        if h != 0 && w > usize::MAX / h {
            proof {
                assert(!resolution.admissible()) by (nonlinear_arith)
                    requires
                        w == resolution.width,
                        h == resolution.height,
                        h != 0,
                        w > usize::MAX / h,
                ;
            }
            return Err(NokhwaError::ProcessFrameError(
                "resolution too large for a frame buffer".to_string(),
            ));
        }
        proof {
            assert(w * h <= usize::MAX) by (nonlinear_arith)
                requires
                    h == 0 || w <= usize::MAX / h,
            ;
        }
        let pixels = w * h;
        if pixels > usize::MAX / 4 {
            proof {
                assert(!resolution.admissible()) by (nonlinear_arith)
                    requires
                        pixels == resolution.width * resolution.height,
                        pixels > usize::MAX / 4,
                ;
            }
            return Err(NokhwaError::ProcessFrameError(
                "resolution too large for an RGBA buffer".to_string(),
            ));
        }
        proof {
            assert(resolution.admissible() && 3 * pixels <= usize::MAX && 3 * pixels == 3
                * resolution.width * resolution.height) by (nonlinear_arith)
                requires
                    pixels == resolution.width * resolution.height,
                    pixels <= usize::MAX / 4,
            ;
        }
        if data.len() != 3 * pixels {
            return Err(NokhwaError::ProcessFrameError(
                "data length does not match the resolution".to_string(),
            ));
        }
        Ok(FrameBuffer { resolution, data })
    }

    pub fn resolution(&self) -> (r: Resolution)
        ensures
            r == self.resolution,
    {
        self.resolution
    }

    pub fn width(&self) -> (r: u32)
        ensures
            r == self.resolution.width,
    {
        self.resolution.width
    }

    pub fn height(&self) -> (r: u32)
        ensures
            r == self.resolution.height,
    {
        self.resolution.height
    }

    pub fn data(&self) -> (r: &Vec<u8>)
        ensures
            r@ == self.data@,
    {
        &self.data
    }
}

/// The RGBA expansion of interleaved RGB bytes: every pixel keeps its three
/// channels and gains a fully opaque alpha channel.
pub open spec fn spec_rgb_to_rgba(s: Seq<u8>) -> Seq<u8> {
    Seq::new(s.len() / 3 * 4, |i: int| if i % 4 == 3 {
        255u8
    } else {
        s[i / 4 * 3 + i % 4]
    })
}

/// Expands an interleaved RGB buffer into an RGBA buffer, one fully opaque
/// alpha byte after each pixel's three channels.
pub fn rgb_to_rgba(rgb: &Vec<u8>) -> (r: Vec<u8>)
    requires
        rgb@.len() % 3 == 0,
        rgb@.len() / 3 * 4 <= usize::MAX,
    ensures
        r@ == spec_rgb_to_rgba(rgb@),
{
    let pixels = rgb.len() / 3;
    let mut out: Vec<u8> = Vec::new();
    let mut p: usize = 0;
    while p < pixels
        invariant
            p <= pixels,
            pixels == rgb@.len() / 3,
            rgb@.len() % 3 == 0,
            rgb@.len() / 3 * 4 <= usize::MAX,
            out@.len() == 4 * p,
            forall|j: int| 0 <= j < 4 * p ==> out@[j] == #[trigger] spec_rgb_to_rgba(rgb@)[j],
        decreases pixels - p,
    {
        proof {
            assert(3 * p + 2 < rgb@.len() && 4 * p + 4 <= rgb@.len() / 3 * 4)
                by (nonlinear_arith)
                requires
                    p < pixels,
                    pixels == rgb@.len() / 3,
                    rgb@.len() % 3 == 0,
            ;
        }
        out.push(rgb[3 * p]);
        out.push(rgb[3 * p + 1]);
        out.push(rgb[3 * p + 2]);
        out.push(255u8);
        proof {
            assert forall|j: int| 4 * p <= j < 4 * (p + 1) implies
                out@[j] == spec_rgb_to_rgba(rgb@)[j] by {
                let q = j / 4;
                let c = j % 4;
                assert(q == p && 0 <= c < 4) by (nonlinear_arith)
                    requires
                        4 * p <= j < 4 * (p + 1),
                        q == j / 4,
                        c == j % 4,
                ;
                assert(j == 4 * p + c);
            }
        }
        p = p + 1;
    }
    proof {
        assert(out@ =~= spec_rgb_to_rgba(rgb@));
    }
    out
}

/// Law: the RGBA expansion is total on well-formed RGB data and pins every
/// byte of its result: the length grows from three to four bytes per pixel,
/// each pixel's RGB channels are kept unchanged, and each pixel's alpha
/// channel is the maximum channel value (fully opaque).
pub proof fn lemma_rgb_to_rgba_pixels(s: Seq<u8>)
    requires
        s.len() % 3 == 0,
    ensures
        spec_rgb_to_rgba(s).len() == s.len() / 3 * 4,
        forall|p: int| 0 <= p < s.len() / 3 ==> {
            &&& #[trigger] spec_rgb_to_rgba(s)[4 * p] == s[3 * p]
            &&& spec_rgb_to_rgba(s)[4 * p + 1] == s[3 * p + 1]
            &&& spec_rgb_to_rgba(s)[4 * p + 2] == s[3 * p + 2]
            &&& spec_rgb_to_rgba(s)[4 * p + 3] == 255u8
        },
{
    assert forall|p: int| 0 <= p < s.len() / 3 implies {
        &&& #[trigger] spec_rgb_to_rgba(s)[4 * p] == s[3 * p]
        &&& spec_rgb_to_rgba(s)[4 * p + 1] == s[3 * p + 1]
        &&& spec_rgb_to_rgba(s)[4 * p + 2] == s[3 * p + 2]
        &&& spec_rgb_to_rgba(s)[4 * p + 3] == 255u8
    } by {
        assert((4 * p) / 4 == p && (4 * p) % 4 == 0 && (4 * p + 1) / 4 == p && (4 * p + 1) % 4
            == 1 && (4 * p + 2) / 4 == p && (4 * p + 2) % 4 == 2 && (4 * p + 3) / 4 == p && (4 * p
            + 3) % 4 == 3) by (nonlinear_arith)
            requires
                0 <= p,
        ;
        assert(4 * p + 3 < s.len() / 3 * 4) by (nonlinear_arith)
            requires
                p < s.len() / 3,
        ;
    }
}

} // verus!
