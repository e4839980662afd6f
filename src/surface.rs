use vstd::prelude::*;

verus! {

/// Pixel size of the presented surface.
#[derive(Clone, Copy, Debug, PartialEq, Eq, Structural)]
pub struct SurfaceDescriptor {
    pub width: u32,
    pub height: u32,
}

/// The descriptor after the window reports the size `(width, height)`: a
/// zero-area size (a minimized window) leaves it as it was.
pub open spec fn resized(d: SurfaceDescriptor, width: u32, height: u32) -> SurfaceDescriptor {
    if width == 0 || height == 0 {
        d
    } else {
        SurfaceDescriptor { width, height }
    }
}

/// Keeps the drawing surface's size in step with the host window.
pub struct SurfaceBinding {
    desc: SurfaceDescriptor,
}

impl View for SurfaceBinding {
    type V = SurfaceDescriptor;

    closed spec fn view(&self) -> SurfaceDescriptor {
        self.desc
    }
}

impl SurfaceBinding {
    #[verifier::type_invariant]
    spec fn inv(self) -> bool {
        self.desc.width > 0 && self.desc.height > 0
    }

    /// A binding for a surface created at `width` by `height` pixels.
    pub fn new(width: u32, height: u32) -> (r: SurfaceBinding)
        requires
            width > 0,
            height > 0,
        ensures
            r@ == (SurfaceDescriptor { width, height }),
    {
        SurfaceBinding { desc: SurfaceDescriptor { width, height } }
    }

    /// The current size; never of zero area.
    pub fn descriptor(&self) -> (r: SurfaceDescriptor)
        ensures
            r == self@,
            r.width > 0 && r.height > 0,
    {
        proof {
            use_type_invariant(self);
        }
        self.desc
    }

    /// Records that the window now measures `(width, height)` pixels. Returns
    /// whether the surface has to be reconfigured: not for a zero-area size,
    /// which is ignored, nor for the size it already has.
    pub fn on_resize(&mut self, width: u32, height: u32) -> (r: bool)
        ensures
            final(self)@ == resized(old(self)@, width, height),
            r == (final(self)@ != old(self)@),
            r == (width > 0 && height > 0 && (width != old(self)@.width || height != old(self)@.height)),
    {
        if width == 0 || height == 0 {
            return false;
        }
        let changed = width != self.desc.width || height != self.desc.height;
        self.desc = SurfaceDescriptor { width, height };
        changed
    }
}

/// Resizing is idempotent: reporting the same size twice leaves the
/// descriptor as reporting it once, and a zero-area size changes nothing.
pub proof fn lemma_resize_idempotent(d: SurfaceDescriptor, width: u32, height: u32)
    ensures
        resized(resized(d, width, height), width, height) == resized(d, width, height),
        resized(d, 0, height) == d,
        resized(d, width, 0) == d,
{
}

} // verus!
