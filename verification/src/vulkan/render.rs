use crate::vulkan::types::SampleCount;
use vstd::prelude::*;

verus! {

/// What happens to an attachment's contents when a pass begins.
#[derive(Clone, Copy, Debug, PartialEq, Eq, Structural)]
pub enum AttachmentLoadOp {
    Load,
    Clear,
    DontCare,
}

/// What happens to an attachment's contents when a pass ends.
#[derive(Clone, Copy, Debug, PartialEq, Eq, Structural)]
pub enum AttachmentStoreOp {
    Store,
    DontCare,
}

/// The arrangement of an image in memory, by what it is used for.
#[derive(Clone, Copy, Debug, PartialEq, Eq, Structural)]
pub enum ImageLayout {
    Undefined,
    General,
    ColorAttachmentOptimal,
    PresentSource,
}

/// The kind of pipeline a subpass runs.
#[derive(Clone, Copy, Debug, PartialEq, Eq, Structural)]
pub enum PipelineBindPoint {
    Graphics,
    Compute,
}

/// How one attachment is treated over the course of the pass.
#[derive(Clone, Copy, Debug, PartialEq, Eq, Structural)]
pub struct AttachmentDescription {
    pub format: i32,
    pub samples: SampleCount,
    pub load_op: AttachmentLoadOp,
    pub store_op: AttachmentStoreOp,
    pub stencil_load_op: AttachmentLoadOp,
    pub stencil_store_op: AttachmentStoreOp,
    pub initial_layout: ImageLayout,
    pub final_layout: ImageLayout,
}

/// An attachment as a subpass uses it: its position among the attachments
/// and the layout it has meanwhile.
#[derive(Clone, Copy, Debug, PartialEq, Eq, Structural)]
pub struct AttachmentReference {
    pub attachment: u32,
    pub layout: ImageLayout,
}

/// A subpass with a single colour output.
#[derive(Clone, Copy, Debug, PartialEq, Eq, Structural)]
pub struct SubpassDescription {
    pub pipeline_bind_point: PipelineBindPoint,
    pub color_attachment: AttachmentReference,
}

/// The payload from which the driver creates the render pass: one
/// attachment, one subpass.
#[derive(Clone, Copy, Debug, PartialEq, Eq, Structural)]
pub struct RenderPassCreateInfo {
    pub attachment: AttachmentDescription,
    pub subpass: SubpassDescription,
}

/// The render pass for a swapchain of the given format. Its one colour
/// attachment holds one sample per pixel, is cleared when the pass begins and
/// stored when it ends, starts out in no particular layout and ends ready to
/// be presented. Its one graphics subpass writes to that attachment alone.
pub open spec fn render_pass_for(surface_format: i32) -> RenderPassCreateInfo {
    RenderPassCreateInfo {
        attachment: AttachmentDescription {
            format: surface_format,
            samples: SampleCount::Type1,
            load_op: AttachmentLoadOp::Clear,
            store_op: AttachmentStoreOp::Store,
            stencil_load_op: AttachmentLoadOp::DontCare,
            stencil_store_op: AttachmentStoreOp::DontCare,
            initial_layout: ImageLayout::Undefined,
            final_layout: ImageLayout::PresentSource,
        },
        subpass: SubpassDescription {
            pipeline_bind_point: PipelineBindPoint::Graphics,
            color_attachment: AttachmentReference {
                attachment: 0,
                layout: ImageLayout::ColorAttachmentOptimal,
            },
        },
    }
}

/// Lays out the render pass for a swapchain of the given format:
/// [`render_pass_for`].
pub fn create_render_pass(surface_format: i32) -> (info: RenderPassCreateInfo)
    ensures
        info == render_pass_for(surface_format),
{
    let color_attachment = AttachmentDescription {
        format: surface_format,
        samples: SampleCount::Type1,
        load_op: AttachmentLoadOp::Clear,
        store_op: AttachmentStoreOp::Store,
        stencil_load_op: AttachmentLoadOp::DontCare,
        stencil_store_op: AttachmentStoreOp::DontCare,
        initial_layout: ImageLayout::Undefined,
        final_layout: ImageLayout::PresentSource,
    };

    let color_attachment_ref = AttachmentReference {
        attachment: 0,
        layout: ImageLayout::ColorAttachmentOptimal,
    };

    let subpass = SubpassDescription {
        pipeline_bind_point: PipelineBindPoint::Graphics,
        color_attachment: color_attachment_ref,
    };

    RenderPassCreateInfo { attachment: color_attachment, subpass }
}

} // verus!
