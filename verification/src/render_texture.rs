//! Render targets: resolved texture views a render pass can attach.

use crate::types::TextureFormat;
use vstd::prelude::*;

verus! {

/// A texture view that can serve as a render pass attachment, identified by
/// the planned view object and carrying its pixel format.
#[derive(Clone, Copy, Debug)]
pub struct RenderTexture {
    /// The identity of the resolved view object.
    pub view: u64,
    /// The pixel format of the attached texture.
    pub format: TextureFormat,
}

} // verus!
