//! Render passes: attachments plus an ordered list of draw calls.

use crate::command_encoder::{CommandEncoder, Pass};
use crate::draw_call::{DrawCall, DrawCallView};
use crate::render_texture::RenderTexture;
use crate::types::{AttachmentOps, ColorBits, MultisampleState};
use vstd::prelude::*;

verus! {

/// A color attachment of a render pass.
#[derive(Clone, Copy, Debug)]
pub struct ColorAttachment {
    pub target: RenderTexture,
    pub resolve_target: Option<RenderTexture>,
    pub ops: AttachmentOps<ColorBits>,
}

/// A depth/stencil attachment of a render pass.
#[derive(Clone, Copy, Debug)]
pub struct DepthStencilAttachment {
    pub target: RenderTexture,
    /// What happens to the depth aspect; the clear value is the bit pattern
    /// of the single-precision depth.
    pub depth_ops: Option<AttachmentOps<u32>>,
    pub stencil_ops: Option<AttachmentOps<u32>>,
}

/// Records a render pass: while open it accumulates draw calls; finishing
/// it appends one render pass record to the owning encoder.
pub struct RenderPass {
    pub(crate) label: Option<String>,
    pub(crate) color_attachments: Vec<ColorAttachment>,
    pub(crate) depth_stencil_attachment: Option<DepthStencilAttachment>,
    pub(crate) multisample: Option<MultisampleState>,
    pub(crate) draw_calls: Vec<DrawCall>,
}

impl RenderPass {
    /// The label this pass was opened with.
    pub closed spec fn spec_label(&self) -> Option<Seq<char>> {
        match self.label {
            Some(l) => Some(l@),
            None => None,
        }
    }

    /// The color attachments this pass was opened with.
    pub closed spec fn spec_color_attachments(&self) -> Seq<ColorAttachment> {
        self.color_attachments@
    }

    /// The depth/stencil attachment this pass was opened with.
    pub closed spec fn spec_depth_stencil_attachment(&self) -> Option<DepthStencilAttachment> {
        self.depth_stencil_attachment
    }

    /// The multisample state this pass was opened with.
    pub closed spec fn spec_multisample(&self) -> Option<MultisampleState> {
        self.multisample
    }

    /// The draw calls pushed so far, in push order.
    pub closed spec fn spec_draw_calls(&self) -> Seq<DrawCallView> {
        self.draw_calls@.map_values(|d: DrawCall| d@)
    }

    /// A new pass over the given attachments, with no draw calls.
    pub(crate) fn new(
        label: Option<&str>,
        color_attachments: Vec<ColorAttachment>,
        depth_stencil_attachment: Option<DepthStencilAttachment>,
        multisample: Option<MultisampleState>,
    ) -> (r: Self)
        ensures
            r.spec_draw_calls() == Seq::<DrawCallView>::empty(),
            r.spec_label() == (match label {
                Some(l) => Some(l@),
                None => None::<Seq<char>>,
            }),
            r.spec_color_attachments() == color_attachments@,
            r.spec_depth_stencil_attachment() == depth_stencil_attachment,
            r.spec_multisample() == multisample,
    {
        let label_owned: Option<String> = match label {
            Some(l) => Some(l.to_owned()),
            None => None,
        };
        let r = RenderPass {
            label: label_owned,
            color_attachments,
            depth_stencil_attachment,
            multisample,
            draw_calls: Vec::new(),
        };
        proof {
            assert(r.spec_draw_calls() =~= Seq::<DrawCallView>::empty());
        }
        r
    }

    /// Finish the pass, appending its record — attachments, multisample
    /// state and the accumulated draw calls, in push order — to the owning
    /// encoder.
    pub fn finish(self, encoder: &mut CommandEncoder)
        ensures
            final(encoder).spec_passes() == old(encoder).spec_passes().push(
                crate::command_encoder::PassView::Render {
                    label: self.spec_label(),
                    color_attachments: self.spec_color_attachments(),
                    depth_stencil_attachment: self.spec_depth_stencil_attachment(),
                    multisample: self.spec_multisample(),
                    draw_calls: self.spec_draw_calls(),
                },
            ),
            final(encoder).spec_label() == old(encoder).spec_label(),
    {
        let RenderPass {
            label,
            color_attachments,
            depth_stencil_attachment,
            multisample,
            draw_calls,
        } = self;
        encoder.push_pass(
            Pass::Render {
                label,
                color_attachments,
                depth_stencil_attachment,
                multisample,
                draw_calls,
            },
        );
    }

    /// Record a draw call.  Draws execute in push order.
    pub fn draw(&mut self, draw_call: DrawCall)
        ensures
            final(self).spec_draw_calls() == old(self).spec_draw_calls().push(draw_call@),
            final(self).spec_label() == old(self).spec_label(),
            final(self).spec_color_attachments() == old(self).spec_color_attachments(),
            final(self).spec_depth_stencil_attachment() == old(
                self,
            ).spec_depth_stencil_attachment(),
            final(self).spec_multisample() == old(self).spec_multisample(),
    {
        let ghost pre = self.draw_calls@;
        let ghost dv = draw_call@;
        self.draw_calls.push(draw_call);
        proof {
            assert(self.spec_draw_calls() =~= pre.map_values(|d: DrawCall| d@).push(dv));
        }
    }
}

} // verus!
