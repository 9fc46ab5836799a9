//! Texture samplers, described by value.
//!
//! A sampler is pure configuration: addressing mode and filtering.  Two
//! samplers built from the same settings are the same sampler, which is what
//! lets the sampler cache share one device object among them.

use crate::types::SamplerBindingType;
use vstd::prelude::*;
use vstd::std_specs::cmp::PartialEqSpec;

verus! {

/// A texture sampler, described entirely by its addressing and filtering
/// configuration.
#[derive(Clone, Copy, Debug)]
#[verifier::ext_equal]
pub struct Sampler {
    pub(crate) clamp: bool,
    pub(crate) linear: bool,
    pub(crate) mipmap_linear: bool,
}

impl View for Sampler {
    type V = Sampler;

    open spec fn view(&self) -> Sampler {
        *self
    }
}

impl PartialEq for Sampler {
    #[verifier::spinoff_prover]
    fn eq(&self, other: &Self) -> (r: bool) {
        let r = self.clamp == other.clamp && self.linear == other.linear && self.mipmap_linear
            == other.mipmap_linear;
        proof {
            if r {
                assert(*self =~= *other);
            } else {
                assert(*self != *other);
            }
        }
        r
    }
}

impl vstd::std_specs::cmp::PartialEqSpecImpl for Sampler {
    open spec fn obeys_eq_spec() -> bool {
        true
    }

    open spec fn eq_spec(&self, other: &Self) -> bool {
        *self == *other
    }
}

/// The key type of the sampler cache compares by view equality.
pub broadcast proof fn lemma_sampler_obeys_view_eq()
    ensures
        #[trigger] vstd::laws_eq::obeys_view_eq::<Sampler>(),
{
    reveal(vstd::laws_eq::obeys_view_eq);
}

impl Sampler {
    /// Whether sampling clamps to the edge rather than wrapping.
    pub closed spec fn is_clamp(&self) -> bool {
        self.clamp
    }

    /// Whether texel filtering interpolates linearly.
    pub closed spec fn is_linear(&self) -> bool {
        self.linear
    }

    /// Whether mipmap level filtering interpolates linearly.
    pub closed spec fn is_mipmap_linear(&self) -> bool {
        self.mipmap_linear
    }

    /// The filtering class a bind group layout sees for this sampler: any
    /// linear interpolation makes it a filtering sampler.
    pub open spec fn spec_sampler_type(&self) -> SamplerBindingType {
        if self.is_linear() || self.is_mipmap_linear() {
            SamplerBindingType::Filtering
        } else {
            SamplerBindingType::NonFiltering
        }
    }

    /// The addressing mode the device sampler is created with.
    pub open spec fn spec_address_mode(&self) -> crate::types::AddressMode {
        if self.is_clamp() {
            crate::types::AddressMode::ClampToEdge
        } else {
            crate::types::AddressMode::Repeat
        }
    }

    /// The texel filter the device sampler is created with.
    pub open spec fn spec_filter(&self) -> crate::types::FilterMode {
        if self.is_linear() {
            crate::types::FilterMode::Linear
        } else {
            crate::types::FilterMode::Nearest
        }
    }

    /// The mipmap filter the device sampler is created with.
    pub open spec fn spec_mipmap_filter(&self) -> crate::types::FilterMode {
        if self.is_mipmap_linear() {
            crate::types::FilterMode::Linear
        } else {
            crate::types::FilterMode::Nearest
        }
    }

    /// The device sampler configuration: addressing mode, texel filter,
    /// mipmap filter.
    pub(crate) fn descriptor(&self) -> (r: (
        crate::types::AddressMode,
        crate::types::FilterMode,
        crate::types::FilterMode,
    ))
        ensures
            r.0 == self.spec_address_mode(),
            r.1 == self.spec_filter(),
            r.2 == self.spec_mipmap_filter(),
    {
        let address_mode = if self.clamp {
            crate::types::AddressMode::ClampToEdge
        } else {
            crate::types::AddressMode::Repeat
        };
        let filter = if self.linear {
            crate::types::FilterMode::Linear
        } else {
            crate::types::FilterMode::Nearest
        };
        let mipmap_filter = if self.mipmap_linear {
            crate::types::FilterMode::Linear
        } else {
            crate::types::FilterMode::Nearest
        };
        (address_mode, filter, mipmap_filter)
    }

    /// Resolve this sampler through the sampler cache: the same
    /// configuration always yields the same device sampler.
    pub(crate) fn get_or_build(&self, context: &mut crate::context::Context) -> (id: u64)
        requires
            old(context).wf(),
        ensures
            final(context).wf(),
            crate::context::sampler_resolution(*old(context), *final(context), self@, id),
    {
        context.resolve_sampler(self)
    }

    pub(crate) fn sampler_type(&self) -> (r: SamplerBindingType)
        ensures
            r == self.spec_sampler_type(),
    {
        if self.linear || self.mipmap_linear {
            SamplerBindingType::Filtering
        } else {
            SamplerBindingType::NonFiltering
        }
    }
}

/// Builds a [`Sampler`].
pub struct SamplerBuilder {
    clamp: bool,
    linear: bool,
    mipmap_linear: bool,
}

impl SamplerBuilder {
    pub closed spec fn spec_clamp(&self) -> bool {
        self.clamp
    }

    pub closed spec fn spec_linear(&self) -> bool {
        self.linear
    }

    pub closed spec fn spec_mipmap_linear(&self) -> bool {
        self.mipmap_linear
    }

    /// A builder for a clamping, fully linear sampler.
    pub fn new() -> (r: Self)
        ensures
            r.spec_clamp(),
            r.spec_linear(),
            r.spec_mipmap_linear(),
    {
        SamplerBuilder { clamp: true, linear: true, mipmap_linear: true }
    }

    /// Clamp texture coordinates to the edge.
    pub fn clamp(self) -> (r: Self)
        ensures
            r.spec_clamp(),
            r.spec_linear() == self.spec_linear(),
            r.spec_mipmap_linear() == self.spec_mipmap_linear(),
    {
        SamplerBuilder { clamp: true, ..self }
    }

    /// Wrap texture coordinates.
    pub fn wrap(self) -> (r: Self)
        ensures
            !r.spec_clamp(),
            r.spec_linear() == self.spec_linear(),
            r.spec_mipmap_linear() == self.spec_mipmap_linear(),
    {
        SamplerBuilder { clamp: false, ..self }
    }

    /// Interpolate texels linearly.
    pub fn linear(self) -> (r: Self)
        ensures
            r.spec_linear(),
            r.spec_clamp() == self.spec_clamp(),
            r.spec_mipmap_linear() == self.spec_mipmap_linear(),
    {
        SamplerBuilder { linear: true, ..self }
    }

    /// Take the nearest texel without interpolation.
    pub fn nearest(self) -> (r: Self)
        ensures
            !r.spec_linear(),
            r.spec_clamp() == self.spec_clamp(),
            r.spec_mipmap_linear() == self.spec_mipmap_linear(),
    {
        SamplerBuilder { linear: false, ..self }
    }

    /// Interpolate between mipmap levels linearly.
    pub fn mipmap_linear(self) -> (r: Self)
        ensures
            r.spec_mipmap_linear(),
            r.spec_clamp() == self.spec_clamp(),
            r.spec_linear() == self.spec_linear(),
    {
        SamplerBuilder { mipmap_linear: true, ..self }
    }

    /// Take the nearest mipmap level.
    pub fn mipmap_nearest(self) -> (r: Self)
        ensures
            !r.spec_mipmap_linear(),
            r.spec_clamp() == self.spec_clamp(),
            r.spec_linear() == self.spec_linear(),
    {
        SamplerBuilder { mipmap_linear: false, ..self }
    }

    /// Consume this builder and return the described [`Sampler`].
    pub fn build(self) -> (r: Sampler)
        ensures
            r.is_clamp() == self.spec_clamp(),
            r.is_linear() == self.spec_linear(),
            r.is_mipmap_linear() == self.spec_mipmap_linear(),
    {
        Sampler { clamp: self.clamp, linear: self.linear, mipmap_linear: self.mipmap_linear }
    }
}

} // verus!
