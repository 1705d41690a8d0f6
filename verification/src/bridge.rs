//! The frame bridge: opaque, tag-validated handles to the host's UI context.
//!
//! The host's UI-construction context is transient: it exists only for the
//! duration of one frame. Script code must never hold a direct reference to
//! it. Instead, the bridge issues a fresh `FrameHandle` at the start of each
//! frame, tagged with that frame's number, and every use of a handle is
//! validated against the frame that is currently open. A handle stashed by a
//! script and replayed during a later frame is rejected on resolution: it can
//! never reach a stale context.

use vstd::prelude::*;

verus! {

/// An opaque capability standing in for the host's frame-local UI context.
///
/// The tag is the number of the frame for which the handle was issued. The
/// handle carries no reference of any kind: resolving it against the bridge
/// is the only way to learn whether it may still be used.
#[derive(Clone, Copy, PartialEq, Eq, Structural, Debug)]
pub struct FrameHandle {
    pub tag: u64,
}

/// Issues and validates per-frame handles.
///
/// `frames` counts how many frames have been opened so far; the handle issued
/// for the frame currently open carries `frames` as its tag. `open` records
/// whether a frame is currently executing: outside of a frame no handle at
/// all is valid.
pub struct FrameBridge {
    pub frames: u64,
    pub open: bool,
}

impl FrameBridge {
    /// Whether `h` may be used right now: a frame is open and `h` is the
    /// handle that was issued for it.
    pub open spec fn accepts(self, h: FrameHandle) -> bool {
        self.open && h.tag == self.frames
    }

    /// A bridge that has never opened a frame.
    pub fn new() -> (b: FrameBridge)
        ensures
            b.frames == 0,
            !b.open,
    {
        FrameBridge { frames: 0, open: false }
    }

    /// Opens the next frame and issues its handle.
    ///
    /// Every handle issued for an earlier frame is invalidated by the bump of
    /// the frame counter: `accepts` compares tags for equality.
    pub fn begin_frame(&mut self) -> (h: FrameHandle)
        requires
            !old(self).open,
            old(self).frames < u64::MAX,
        ensures
            final(self).open,
            final(self).frames == old(self).frames + 1,
            h.tag == final(self).frames,
            final(self).accepts(h),
    {
        self.frames = self.frames + 1;
        self.open = true;
        FrameHandle { tag: self.frames }
    }

    /// Closes the frame that is currently open. From this point on no handle
    /// resolves until the next frame is opened, and the handle of the closed
    /// frame never resolves again.
    pub fn end_frame(&mut self)
        requires
            old(self).open,
        ensures
            !final(self).open,
            final(self).frames == old(self).frames,
            forall|h: FrameHandle| !final(self).accepts(h),
    {
        self.open = false;
    }

    /// Validates a handle against the frame currently open: succeeds exactly
    /// when `h` is the handle issued for it.
    pub fn resolve(&self, h: FrameHandle) -> (valid: bool)
        ensures
            valid == self.accepts(h),
    {
        self.open && h.tag == self.frames
    }
}

/// Handle confinement: a handle issued for one frame is never accepted once
/// any later frame has been opened, no matter how the script stashed it in
/// the meantime. The bridge's frame counter only grows, and `accepts`
/// compares the handle's tag against the current counter.
pub proof fn lemma_handle_confinement(issued: FrameBridge, later: FrameBridge, h: FrameHandle)
    requires
        h.tag == issued.frames,
        later.frames > issued.frames,
    ensures
        !later.accepts(h),
{
}

} // verus!
