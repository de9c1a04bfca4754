//! The swap chain: when it is resized, and how it goes on while its window is hidden.

use vstd::prelude::*;

verus! {

#[derive(Clone, Copy, Debug, PartialEq, Eq, Structural)]
pub enum PresentOutcome {
    Presented,
    Occluded,
}

/// How many buffers a swap chain has.
pub const BUFFER_COUNT: u32 = 2;

/// How long a hidden window waits after each frame, in milliseconds.
pub const OCCLUDED_WAIT_MILLISECONDS: u64 = 50;

/// What is known of a swap chain.
#[derive(Clone, Copy, Debug, PartialEq, Eq, Structural)]
pub struct Swapchain {
    pub width: u32,
    pub height: u32,
    /// There is a target to render to.
    pub has_target: bool,
    /// Frames are presented as a test only.
    pub test_only: bool,
}

impl Swapchain {
    /// A new swap chain, whose target was made.
    pub fn new(width: u32, height: u32) -> (swapchain: Swapchain)
        ensures
            swapchain == (Swapchain { width, height, has_target: true, test_only: false }),
    {
        Swapchain { width, height, has_target: true, test_only: false }
    }

    /// A size that asks for a resize: not empty, and another than the present one.
    pub open spec fn needs_resize(self, width: u32, height: u32) -> bool {
        width != 0 && height != 0 && !(width == self.width && height == self.height)
    }

    /// Begins a resize where one is needed: the target is released.
    pub fn begin_resize(&mut self, width: u32, height: u32) -> (begun: bool)
        ensures
            begun == old(self).needs_resize(width, height),
            *final(self) == if begun {
                Swapchain { has_target: false, ..*old(self) }
            } else {
                *old(self)
            },
    {
        if width == 0 || height == 0 {
            return false;
        }
        if width == self.width && height == self.height {
            return false;
        }
        self.has_target = false;
        true
    }

    /// Ends a resize. The size changes only where the buffers were resized and a target was
    /// made of them; a swap chain without a target keeps its size.
    pub fn finish_resize(&mut self, width: u32, height: u32, resized: bool, target_made: bool) -> (done:
        bool)
        ensures
            done == (resized && target_made),
            *final(self) == if done {
                Swapchain { width, height, has_target: true, ..*old(self) }
            } else {
                *old(self)
            },
    {
        if !resized || !target_made {
            return false;
        }
        self.has_target = true;
        self.width = width;
        self.height = height;
        true
    }

    /// Takes note of a presented frame. While the window is hidden, frames are only tested.
    pub fn present(&mut self, occluded: bool) -> (outcome: PresentOutcome)
        ensures
            outcome == if occluded {
                PresentOutcome::Occluded
            } else {
                PresentOutcome::Presented
            },
            *final(self) == (Swapchain { test_only: occluded, ..*old(self) }),
    {
        self.test_only = occluded;
        if occluded {
            PresentOutcome::Occluded
        } else {
            PresentOutcome::Presented
        }
    }
}

} // verus!
