//! Mode-setting resources and the filters that relate them.
use vstd::prelude::*;

pub mod crtc;
pub mod encoder;
pub mod filter;
