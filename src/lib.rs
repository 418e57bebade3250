//! Data model for the encoder nodes of a display mode-setting resource graph.
//!
//! An encoder converts the pixel stream of a display controller (CRTC) into a
//! signal that a connector understands. The kernel describes each encoder by
//! its type, the controller it is bound to, if any, and two capability
//! bitmasks whose bits index into the device's ordered resource lists.
use vstd::prelude::*;

pub mod control;
