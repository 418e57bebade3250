//! # Encoder
//!
//! An encoder is a bridge between a CRTC and a connector that takes the pixel
//! data of the CRTC and encodes it into a format the connector understands.
use vstd::prelude::*;

use crate::control::crtc::Handle as CrtcHandle;
use crate::control::filter::{decoded, ResourceFilter, ResourceHandle};

verus! {

/// Kernel code of an encoder of no known type.
pub const DRM_MODE_ENCODER_NONE: u32 = 0;

/// Kernel code of an analog (VGA) DAC encoder.
pub const DRM_MODE_ENCODER_DAC: u32 = 1;

/// Kernel code of a TMDS (DVI, HDMI) encoder.
pub const DRM_MODE_ENCODER_TMDS: u32 = 2;

/// Kernel code of an LVDS encoder.
pub const DRM_MODE_ENCODER_LVDS: u32 = 3;

/// Kernel code of a TV DAC encoder.
pub const DRM_MODE_ENCODER_TVDAC: u32 = 4;

/// Kernel code of a virtual encoder.
pub const DRM_MODE_ENCODER_VIRTUAL: u32 = 5;

/// Kernel code of a DSI encoder.
pub const DRM_MODE_ENCODER_DSI: u32 = 6;

/// Kernel code of a DisplayPort multi-stream encoder.
pub const DRM_MODE_ENCODER_DPMST: u32 = 7;

/// Kernel code of a DPI encoder.
pub const DRM_MODE_ENCODER_DPI: u32 = 8;

/// A handle to an encoder, wrapping the kernel-assigned identifier.
#[derive(Debug, Copy, Clone, Hash, Eq)]
pub struct Handle(pub u32);

impl PartialEq for Handle {
    fn eq(&self, other: &Handle) -> (r: bool) {
        self.0 == other.0
    }
}

impl vstd::std_specs::cmp::PartialEqSpecImpl for Handle {
    open spec fn obeys_eq_spec() -> bool {
        true
    }

    open spec fn eq_spec(&self, other: &Handle) -> bool {
        self.0 == other.0
    }
}

impl ResourceHandle for Handle {
    fn same_as(&self, other: &Handle) -> (r: bool) {
        self.0 == other.0
    }
}

impl From<u32> for Handle {
    fn from(raw: u32) -> (h: Handle) {
        Handle(raw)
    }
}

impl vstd::std_specs::convert::FromSpecImpl<u32> for Handle {
    open spec fn obeys_from_spec() -> bool {
        true
    }

    open spec fn from_spec(raw: u32) -> Handle {
        Handle(raw)
    }
}

impl From<Handle> for u32 {
    fn from(h: Handle) -> (raw: u32) {
        h.0
    }
}

impl vstd::std_specs::convert::FromSpecImpl<Handle> for u32 {
    open spec fn obeys_from_spec() -> bool {
        true
    }

    open spec fn from_spec(h: Handle) -> u32 {
        h.0
    }
}

/// The type of encoder.
#[allow(missing_docs)]
#[derive(Debug, Copy, Clone, Hash, PartialEq, Eq, Structural)]
pub enum Kind {
    Unknown,
    DAC,
    TMDS,
    LVDS,
    TVDAC,
    Virtual,
    DSI,
    DPMST,
    DPI,
}

impl Kind {
    /// The kernel code of each type.
    pub open spec fn code(self) -> u32 {
        match self {
            Kind::Unknown => DRM_MODE_ENCODER_NONE,
            Kind::DAC => DRM_MODE_ENCODER_DAC,
            Kind::TMDS => DRM_MODE_ENCODER_TMDS,
            Kind::LVDS => DRM_MODE_ENCODER_LVDS,
            Kind::TVDAC => DRM_MODE_ENCODER_TVDAC,
            Kind::Virtual => DRM_MODE_ENCODER_VIRTUAL,
            Kind::DSI => DRM_MODE_ENCODER_DSI,
            Kind::DPMST => DRM_MODE_ENCODER_DPMST,
            Kind::DPI => DRM_MODE_ENCODER_DPI,
        }
    }

    /// The type that a kernel code stands for; codes that no type has
    /// stand for `Unknown`.
    pub open spec fn of_code(code: u32) -> Kind {
        if code == DRM_MODE_ENCODER_DAC {
            Kind::DAC
        } else if code == DRM_MODE_ENCODER_TMDS {
            Kind::TMDS
        } else if code == DRM_MODE_ENCODER_LVDS {
            Kind::LVDS
        } else if code == DRM_MODE_ENCODER_TVDAC {
            Kind::TVDAC
        } else if code == DRM_MODE_ENCODER_VIRTUAL {
            Kind::Virtual
        } else if code == DRM_MODE_ENCODER_DSI {
            Kind::DSI
        } else if code == DRM_MODE_ENCODER_DPMST {
            Kind::DPMST
        } else if code == DRM_MODE_ENCODER_DPI {
            Kind::DPI
        } else {
            Kind::Unknown
        }
    }

    /// Decodes a kernel code; codes that no type has become `Kind::Unknown`.
    pub fn from_raw(code: u32) -> (k: Kind)
        ensures
            k == Kind::of_code(code),
    {
        match code {
            DRM_MODE_ENCODER_NONE => Kind::Unknown,
            DRM_MODE_ENCODER_DAC => Kind::DAC,
            DRM_MODE_ENCODER_TMDS => Kind::TMDS,
            DRM_MODE_ENCODER_LVDS => Kind::LVDS,
            DRM_MODE_ENCODER_TVDAC => Kind::TVDAC,
            DRM_MODE_ENCODER_VIRTUAL => Kind::Virtual,
            DRM_MODE_ENCODER_DSI => Kind::DSI,
            DRM_MODE_ENCODER_DPMST => Kind::DPMST,
            DRM_MODE_ENCODER_DPI => Kind::DPI,
            _ => Kind::Unknown,
        }
    }

    /// The kernel code of this type.
    pub fn to_raw(self) -> (code: u32)
        ensures
            code == self.code(),
    {
        match self {
            Kind::Unknown => DRM_MODE_ENCODER_NONE,
            Kind::DAC => DRM_MODE_ENCODER_DAC,
            Kind::TMDS => DRM_MODE_ENCODER_TMDS,
            Kind::LVDS => DRM_MODE_ENCODER_LVDS,
            Kind::TVDAC => DRM_MODE_ENCODER_TVDAC,
            Kind::Virtual => DRM_MODE_ENCODER_VIRTUAL,
            Kind::DSI => DRM_MODE_ENCODER_DSI,
            Kind::DPMST => DRM_MODE_ENCODER_DPMST,
            Kind::DPI => DRM_MODE_ENCODER_DPI,
        }
    }
}

/// Every type survives the trip to its kernel code and back, so a code that
/// belongs to a type is stable under decoding and encoding again.
pub proof fn lemma_kind_round_trip(k: Kind)
    ensures
        Kind::of_code(k.code()) == k,
        Kind::of_code(k.code()).code() == k.code(),
{
}

/// A code that belongs to no type decodes to `Kind::Unknown`.
pub proof fn lemma_unassigned_code_is_unknown(code: u32)
    requires
        forall|k: Kind| #[trigger] k.code() != code,
    ensures
        Kind::of_code(code) == Kind::Unknown,
{
    assert(Kind::DAC.code() != code);
    assert(Kind::TMDS.code() != code);
    assert(Kind::LVDS.code() != code);
    assert(Kind::TVDAC.code() != code);
    assert(Kind::Virtual.code() != code);
    assert(Kind::DSI.code() != code);
    assert(Kind::DPMST.code() != code);
    assert(Kind::DPI.code() != code);
}

impl From<u32> for Kind {
    fn from(n: u32) -> (k: Kind) {
        Kind::from_raw(n)
    }
}

impl vstd::std_specs::convert::FromSpecImpl<u32> for Kind {
    open spec fn obeys_from_spec() -> bool {
        true
    }

    open spec fn from_spec(n: u32) -> Kind {
        Kind::of_code(n)
    }
}

impl From<Kind> for u32 {
    fn from(k: Kind) -> (n: u32) {
        k.to_raw()
    }
}

impl vstd::std_specs::convert::FromSpecImpl<Kind> for u32 {
    open spec fn obeys_from_spec() -> bool {
        true
    }

    open spec fn from_spec(k: Kind) -> u32 {
        k.code()
    }
}

/// Information about an encoder, as the kernel reported it when the device
/// was enumerated.
#[derive(Debug, Copy, Clone, Hash, PartialEq, Eq)]
pub struct Info {
    pub(crate) handle: Handle,
    pub(crate) enc_type: Kind,
    pub(crate) crtc: Option<CrtcHandle>,
    pub(crate) pos_crtcs: u32,
    pub(crate) pos_clones: u32,
}

impl Info {
    /// The encoder's handle in the snapshot.
    pub closed spec fn spec_handle(&self) -> Handle {
        self.handle
    }

    /// The encoder's type in the snapshot.
    pub closed spec fn spec_kind(&self) -> Kind {
        self.enc_type
    }

    /// The CRTC bound to the encoder in the snapshot, if any.
    pub closed spec fn spec_crtc(&self) -> Option<CrtcHandle> {
        self.crtc
    }

    /// The bitmask of CRTCs that can drive the encoder.
    pub closed spec fn crtcs_mask(&self) -> u32 {
        self.pos_crtcs
    }

    /// The bitmask of encoders that can clone this one's output.
    pub closed spec fn clones_mask(&self) -> u32 {
        self.pos_clones
    }

    /// Builds the snapshot from the kernel's raw record of an encoder. A
    /// `crtc_id` of zero means that no CRTC is bound to the encoder.
    pub fn from_raw(
        handle: u32,
        encoder_type: u32,
        crtc_id: u32,
        possible_crtcs: u32,
        possible_clones: u32,
    ) -> (info: Info)
        ensures
            info.spec_handle() == Handle(handle),
            info.spec_kind() == Kind::of_code(encoder_type),
            crtc_id == 0 ==> info.spec_crtc() == Option::<CrtcHandle>::None,
            crtc_id != 0 ==> info.spec_crtc() == Some(CrtcHandle(crtc_id)),
            info.crtcs_mask() == possible_crtcs,
            info.clones_mask() == possible_clones,
    {
        let crtc = if crtc_id == 0 {
            None
        } else {
            Some(CrtcHandle(crtc_id))
        };
        Info {
            handle: Handle(handle),
            enc_type: Kind::from_raw(encoder_type),
            crtc,
            pos_crtcs: possible_crtcs,
            pos_clones: possible_clones,
        }
    }

    /// The encoder's handle
    pub fn handle(&self) -> (h: Handle)
        ensures
            h == self.spec_handle(),
    {
        self.handle
    }

    /// The encoder's type
    pub fn kind(&self) -> (k: Kind)
        ensures
            k == self.spec_kind(),
    {
        self.enc_type
    }

    /// Gets the handle of the CRTC currently used if it exists
    pub fn crtc(&self) -> (c: Option<CrtcHandle>)
        ensures
            c == self.spec_crtc(),
    {
        self.crtc
    }

    /// Returns a filter for the possible CRTCs that can use this encoder.
    ///
    /// `crtcs` must be the device's CRTC handles in the order in which the
    /// device enumerated them: bit `i` of the mask stands for `crtcs[i]`.
    pub fn possible_crtcs(&self, crtcs: &[CrtcHandle]) -> (f: ResourceFilter<CrtcHandle>)
        ensures
            f@ == decoded(self.crtcs_mask(), crtcs@),
    {
        ResourceFilter::decode(self.pos_crtcs, crtcs)
    }

    /// Returns a filter for the possible encoders that clones this one.
    ///
    /// `encoders` must be the device's encoder handles in the order in which
    /// the device enumerated them: bit `i` of the mask stands for
    /// `encoders[i]`. The filter may hold this encoder's own handle.
    pub fn possible_clones(&self, encoders: &[Handle]) -> (f: ResourceFilter<Handle>)
        ensures
            f@ == decoded(self.clones_mask(), encoders@),
    {
        ResourceFilter::decode(self.pos_clones, encoders)
    }
}

} // verus!
