//! # CRTC
//!
//! A CRTC (display controller) scans out a framebuffer and feeds encoders.
//! Only its handle is modelled here.
use vstd::prelude::*;

use crate::control::filter::ResourceHandle;

verus! {

/// A handle to a CRTC, wrapping the kernel-assigned identifier.
#[derive(Debug, Copy, Clone, Hash, Eq)]
pub struct Handle(pub u32);

impl PartialEq for Handle {
    fn eq(&self, other: &Handle) -> (r: bool) {
        self.0 == other.0
    }
}

impl vstd::std_specs::cmp::PartialEqSpecImpl for Handle {
    open spec fn obeys_eq_spec() -> bool {
        true
    }

    open spec fn eq_spec(&self, other: &Handle) -> bool {
        self.0 == other.0
    }
}

impl ResourceHandle for Handle {
    fn same_as(&self, other: &Handle) -> (r: bool) {
        self.0 == other.0
    }
}

impl From<u32> for Handle {
    fn from(raw: u32) -> (h: Handle) {
        Handle(raw)
    }
}

impl vstd::std_specs::convert::FromSpecImpl<u32> for Handle {
    open spec fn obeys_from_spec() -> bool {
        true
    }

    open spec fn from_spec(raw: u32) -> Handle {
        Handle(raw)
    }
}

impl From<Handle> for u32 {
    fn from(h: Handle) -> (raw: u32) {
        h.0
    }
}

impl vstd::std_specs::convert::FromSpecImpl<Handle> for u32 {
    open spec fn obeys_from_spec() -> bool {
        true
    }

    open spec fn from_spec(h: Handle) -> u32 {
        h.0
    }
}

} // verus!
