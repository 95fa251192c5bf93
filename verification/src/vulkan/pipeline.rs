use crate::vulkan::types::{Extent2D, SampleCount};
use vstd::prelude::*;
use vstd::string::StringExecFns;

verus! {

/// The programmable stage a shader module is bound to.
#[derive(Clone, Copy, Debug, PartialEq, Eq, Structural)]
pub enum ShaderStage {
    Vertex,
    Fragment,
}

/// How vertices are put together into primitives.
#[derive(Clone, Copy, Debug, PartialEq, Eq, Structural)]
pub enum PrimitiveTopology {
    PointList,
    LineList,
    TriangleList,
    TriangleStrip,
}

/// How the inside of a polygon is drawn.
#[derive(Clone, Copy, Debug, PartialEq, Eq, Structural)]
pub enum PolygonMode {
    Fill,
    Line,
    Point,
}

/// Which faces are thrown away before rasterization.
#[derive(Clone, Copy, Debug, PartialEq, Eq, Structural)]
pub enum CullMode {
    Neither,
    Front,
    Back,
    FrontAndBack,
}

/// The winding order that marks a triangle as facing the viewer.
#[derive(Clone, Copy, Debug, PartialEq, Eq, Structural)]
pub enum FrontFace {
    CounterClockwise,
    Clockwise,
}

/// A comparison between a stored and an incoming value.
#[derive(Clone, Copy, Debug, PartialEq, Eq, Structural)]
pub enum CompareOp {
    Never,
    Less,
    Equal,
    LessOrEqual,
    Greater,
    NotEqual,
    GreaterOrEqual,
    Always,
}

/// What is done to a stencil value after a test.
#[derive(Clone, Copy, Debug, PartialEq, Eq, Structural)]
pub enum StencilOp {
    Keep,
    Zero,
    Replace,
    Invert,
}

/// A weight in the blend equation.
#[derive(Clone, Copy, Debug, PartialEq, Eq, Structural)]
pub enum BlendFactor {
    Zero,
    One,
    SourceAlpha,
    OneMinusSourceAlpha,
}

/// How the weighted colours are combined.
#[derive(Clone, Copy, Debug, PartialEq, Eq, Structural)]
pub enum BlendOp {
    Add,
    Subtract,
    ReverseSubtract,
    Min,
    Max,
}

/// A bitwise operation between the incoming and the stored colour.
#[derive(Clone, Copy, Debug, PartialEq, Eq, Structural)]
pub enum LogicOp {
    Clear,
    And,
    Copy,
    NoOp,
}

/// The colour channels that are written.
#[derive(Clone, Copy, Debug, PartialEq, Eq, Structural)]
pub struct ColorComponents {
    pub r: bool,
    pub g: bool,
    pub b: bool,
    pub a: bool,
}

/// The payload from which the driver creates a shader module.
#[derive(Debug, PartialEq, Eq)]
pub struct ShaderModuleCreateInfo {
    pub code: Vec<u32>,
}

/// One programmable stage of the pipeline.
#[derive(Debug, PartialEq, Eq)]
pub struct PipelineShaderStageCreateInfo {
    pub stage: ShaderStage,
    pub module: u64,
    /// The function of the module at which the stage starts.
    pub name: String,
}

/// The vertex buffers the pipeline reads.
#[derive(Clone, Copy, Debug, PartialEq, Eq, Structural)]
pub struct PipelineVertexInputStateCreateInfo {
    pub vertex_binding_description_count: u32,
    pub vertex_attribute_description_count: u32,
}

/// How vertices are assembled into primitives.
#[derive(Clone, Copy, Debug, PartialEq, Eq, Structural)]
pub struct PipelineInputAssemblyStateCreateInfo {
    pub topology: PrimitiveTopology,
    pub primitive_restart_enable: bool,
}

/// The part of the framebuffer that is drawn to. The driver takes these
/// numbers as floating point; all of them are whole.
#[derive(Clone, Copy, Debug, PartialEq, Eq, Structural)]
pub struct Viewport {
    pub x: u32,
    pub y: u32,
    pub width: u32,
    pub height: u32,
    pub min_depth: u32,
    pub max_depth: u32,
}

/// A position in pixels.
#[derive(Clone, Copy, Debug, PartialEq, Eq, Structural)]
pub struct Offset2D {
    pub x: i32,
    pub y: i32,
}

/// A rectangle in pixels.
#[derive(Clone, Copy, Debug, PartialEq, Eq, Structural)]
pub struct Rect2D {
    pub offset: Offset2D,
    pub extent: Extent2D,
}

/// The driver takes the bias factors and the line width as floating point;
/// all of them are whole.
#[derive(Clone, Copy, Debug, PartialEq, Eq, Structural)]
pub struct PipelineRasterizationStateCreateInfo {
    pub depth_clamp_enable: bool,
    pub rasterizer_discard_enable: bool,
    pub polygon_mode: PolygonMode,
    pub cull_mode: CullMode,
    pub front_face: FrontFace,
    pub depth_bias_enable: bool,
    pub depth_bias_constant_factor: u32,
    pub depth_bias_clamp: u32,
    pub depth_bias_slope_factor: u32,
    pub line_width: u32,
}

/// The driver takes the sample shading fraction as floating point; it is
/// whole.
#[derive(Clone, Copy, Debug, PartialEq, Eq, Structural)]
pub struct PipelineMultisampleStateCreateInfo {
    pub rasterization_samples: SampleCount,
    pub sample_shading_enable: bool,
    pub min_sample_shading: u32,
    pub alpha_to_coverage_enable: bool,
    pub alpha_to_one_enable: bool,
}

/// The stencil test for one side of a primitive.
#[derive(Clone, Copy, Debug, PartialEq, Eq, Structural)]
pub struct StencilOpState {
    pub fail_op: StencilOp,
    pub pass_op: StencilOp,
    pub depth_fail_op: StencilOp,
    pub compare_op: CompareOp,
    pub compare_mask: u32,
    pub write_mask: u32,
    pub reference: u32,
}

/// The driver takes the depth bounds as floating point; both are whole.
#[derive(Clone, Copy, Debug, PartialEq, Eq, Structural)]
pub struct PipelineDepthStencilStateCreateInfo {
    pub depth_test_enable: bool,
    pub depth_write_enable: bool,
    pub depth_compare_op: CompareOp,
    pub depth_bounds_test_enable: bool,
    pub stencil_test_enable: bool,
    pub front: StencilOpState,
    pub back: StencilOpState,
    pub min_depth_bounds: u32,
    pub max_depth_bounds: u32,
}

/// How the incoming colour is blended into one attachment.
#[derive(Clone, Copy, Debug, PartialEq, Eq, Structural)]
pub struct PipelineColorBlendAttachmentState {
    pub blend_enable: bool,
    pub src_color_blend_factor: BlendFactor,
    pub dst_color_blend_factor: BlendFactor,
    pub color_blend_op: BlendOp,
    pub src_alpha_blend_factor: BlendFactor,
    pub dst_alpha_blend_factor: BlendFactor,
    pub alpha_blend_op: BlendOp,
    pub color_write_mask: ColorComponents,
}

/// Blending for the one colour attachment of the pass.
#[derive(Clone, Copy, Debug, PartialEq, Eq, Structural)]
pub struct PipelineColorBlendStateCreateInfo {
    pub logic_op_enable: bool,
    pub logic_op: LogicOp,
    pub attachment: PipelineColorBlendAttachmentState,
}

/// What the shaders can reach besides their inputs.
#[derive(Clone, Copy, Debug, PartialEq, Eq, Structural)]
pub struct PipelineLayoutCreateInfo {
    pub set_layout_count: u32,
    pub push_constant_range_count: u32,
}

/// The payload from which the driver creates the graphics pipeline.
#[derive(Debug, PartialEq, Eq)]
pub struct GraphicsPipelineCreateInfo {
    pub vertex_stage: PipelineShaderStageCreateInfo,
    pub fragment_stage: PipelineShaderStageCreateInfo,
    pub vertex_input_state: PipelineVertexInputStateCreateInfo,
    pub input_assembly_state: PipelineInputAssemblyStateCreateInfo,
    pub viewport: Viewport,
    pub scissor: Rect2D,
    pub rasterization_state: PipelineRasterizationStateCreateInfo,
    pub multisample_state: PipelineMultisampleStateCreateInfo,
    pub depth_stencil_state: PipelineDepthStencilStateCreateInfo,
    pub color_blend_state: PipelineColorBlendStateCreateInfo,
    pub layout: u64,
    pub render_pass: u64,
    pub subpass: u32,
}

/// No vertex buffer is bound: the vertex shader makes up the geometry.
pub open spec fn vertex_input_state() -> PipelineVertexInputStateCreateInfo {
    PipelineVertexInputStateCreateInfo {
        vertex_binding_description_count: 0,
        vertex_attribute_description_count: 0,
    }
}

/// Every three vertices make one triangle.
pub open spec fn input_assembly_state() -> PipelineInputAssemblyStateCreateInfo {
    PipelineInputAssemblyStateCreateInfo {
        topology: PrimitiveTopology::TriangleList,
        primitive_restart_enable: false,
    }
}

/// The whole of the extent, with no depth range.
pub open spec fn viewport_for(extent: Extent2D) -> Viewport {
    Viewport { x: 0, y: 0, width: extent.width, height: extent.height, min_depth: 0, max_depth: 0 }
}

/// The whole of the extent.
pub open spec fn scissor_for(extent: Extent2D) -> Rect2D {
    Rect2D { offset: Offset2D { x: 0, y: 0 }, extent }
}

/// Filled polygons, back faces culled, clockwise triangles facing the
/// viewer, no depth bias.
pub open spec fn rasterization_state() -> PipelineRasterizationStateCreateInfo {
    PipelineRasterizationStateCreateInfo {
        depth_clamp_enable: false,
        rasterizer_discard_enable: false,
        polygon_mode: PolygonMode::Fill,
        cull_mode: CullMode::Back,
        front_face: FrontFace::Clockwise,
        depth_bias_enable: false,
        depth_bias_constant_factor: 0,
        depth_bias_clamp: 0,
        depth_bias_slope_factor: 0,
        line_width: 1,
    }
}

/// One sample per pixel.
pub open spec fn multisample_state() -> PipelineMultisampleStateCreateInfo {
    PipelineMultisampleStateCreateInfo {
        rasterization_samples: SampleCount::Type1,
        sample_shading_enable: false,
        min_sample_shading: 0,
        alpha_to_coverage_enable: false,
        alpha_to_one_enable: false,
    }
}

/// A stencil face that changes nothing and lets everything pass.
pub open spec fn stencil_state() -> StencilOpState {
    StencilOpState {
        fail_op: StencilOp::Keep,
        pass_op: StencilOp::Keep,
        depth_fail_op: StencilOp::Keep,
        compare_op: CompareOp::Always,
        compare_mask: 0,
        write_mask: 0,
        reference: 0,
    }
}

/// Neither depth nor stencil is tested.
pub open spec fn depth_stencil_state() -> PipelineDepthStencilStateCreateInfo {
    PipelineDepthStencilStateCreateInfo {
        depth_test_enable: false,
        depth_write_enable: false,
        depth_compare_op: CompareOp::LessOrEqual,
        depth_bounds_test_enable: false,
        stencil_test_enable: false,
        front: stencil_state(),
        back: stencil_state(),
        min_depth_bounds: 0,
        max_depth_bounds: 1,
    }
}

/// The incoming colour replaces the stored one in all four channels.
pub open spec fn color_blend_state() -> PipelineColorBlendStateCreateInfo {
    PipelineColorBlendStateCreateInfo {
        logic_op_enable: false,
        logic_op: LogicOp::Copy,
        attachment: PipelineColorBlendAttachmentState {
            blend_enable: false,
            src_color_blend_factor: BlendFactor::One,
            dst_color_blend_factor: BlendFactor::Zero,
            color_blend_op: BlendOp::Add,
            src_alpha_blend_factor: BlendFactor::One,
            dst_alpha_blend_factor: BlendFactor::Zero,
            alpha_blend_op: BlendOp::Add,
            color_write_mask: ColorComponents { r: true, g: true, b: true, a: true },
        },
    }
}

/// No descriptor set and no push constant.
pub open spec fn pipeline_layout() -> PipelineLayoutCreateInfo {
    PipelineLayoutCreateInfo { set_layout_count: 0, push_constant_range_count: 0 }
}

/// The payload for a shader module that holds `shader_code`.
pub fn create_shader_module(shader_code: Vec<u32>) -> (info: ShaderModuleCreateInfo)
    ensures
        info.code@ == shader_code@,
{
    ShaderModuleCreateInfo { code: shader_code }
}

/// Binds a shader module to a stage, entered at the named function.
pub fn create_pipeline_shader_stage_create_info(
    main_function_name: &String,
    shader_module: u64,
    stage: ShaderStage,
) -> (info: PipelineShaderStageCreateInfo)
    ensures
        info.stage == stage,
        info.module == shader_module,
        info.name@ == main_function_name@,
{
    PipelineShaderStageCreateInfo { stage, module: shader_module, name: main_function_name.clone() }
}

/// The vertex input of the pipeline: [`vertex_input_state`].
pub fn create_vertex_input_state_create_info() -> (info: PipelineVertexInputStateCreateInfo)
    ensures
        info == vertex_input_state(),
{
    PipelineVertexInputStateCreateInfo {
        vertex_binding_description_count: 0,
        vertex_attribute_description_count: 0,
    }
}

/// The input assembly of the pipeline: [`input_assembly_state`].
pub fn create_input_assembly_state_create_info() -> (info: PipelineInputAssemblyStateCreateInfo)
    ensures
        info == input_assembly_state(),
{
    PipelineInputAssemblyStateCreateInfo {
        topology: PrimitiveTopology::TriangleList,
        primitive_restart_enable: false,
    }
}

/// The rasterizer of the pipeline: [`rasterization_state`].
pub fn create_rasterization_state_create_info() -> (info: PipelineRasterizationStateCreateInfo)
    ensures
        info == rasterization_state(),
{
    PipelineRasterizationStateCreateInfo {
        depth_clamp_enable: false,
        rasterizer_discard_enable: false,
        polygon_mode: PolygonMode::Fill,
        cull_mode: CullMode::Back,
        front_face: FrontFace::Clockwise,
        depth_bias_enable: false,
        depth_bias_constant_factor: 0,
        depth_bias_clamp: 0,
        depth_bias_slope_factor: 0,
        line_width: 1,
    }
}

/// The multisampling of the pipeline: [`multisample_state`].
pub fn create_multisample_state_create_info() -> (info: PipelineMultisampleStateCreateInfo)
    ensures
        info == multisample_state(),
{
    PipelineMultisampleStateCreateInfo {
        rasterization_samples: SampleCount::Type1,
        sample_shading_enable: false,
        min_sample_shading: 0,
        alpha_to_coverage_enable: false,
        alpha_to_one_enable: false,
    }
}

/// The depth and stencil tests of the pipeline: [`depth_stencil_state`].
pub fn create_depth_stencil_state_create_info() -> (info: PipelineDepthStencilStateCreateInfo)
    ensures
        info == depth_stencil_state(),
{
    let stencil_state = StencilOpState {
        fail_op: StencilOp::Keep,
        pass_op: StencilOp::Keep,
        depth_fail_op: StencilOp::Keep,
        compare_op: CompareOp::Always,
        compare_mask: 0,
        write_mask: 0,
        reference: 0,
    };

    PipelineDepthStencilStateCreateInfo {
        depth_test_enable: false,
        depth_write_enable: false,
        depth_compare_op: CompareOp::LessOrEqual,
        depth_bounds_test_enable: false,
        stencil_test_enable: false,
        front: stencil_state,
        back: stencil_state,
        min_depth_bounds: 0,
        max_depth_bounds: 1,
    }
}

/// The blending of the pipeline: [`color_blend_state`].
pub fn create_color_blend_state_create_info() -> (info: PipelineColorBlendStateCreateInfo)
    ensures
        info == color_blend_state(),
{
    let color_blend_attachment_state = PipelineColorBlendAttachmentState {
        blend_enable: false,
        src_color_blend_factor: BlendFactor::One,
        dst_color_blend_factor: BlendFactor::Zero,
        color_blend_op: BlendOp::Add,
        src_alpha_blend_factor: BlendFactor::One,
        dst_alpha_blend_factor: BlendFactor::Zero,
        alpha_blend_op: BlendOp::Add,
        color_write_mask: ColorComponents { r: true, g: true, b: true, a: true },
    };

    PipelineColorBlendStateCreateInfo {
        logic_op_enable: false,
        logic_op: LogicOp::Copy,
        attachment: color_blend_attachment_state,
    }
}

/// The layout of the pipeline: [`pipeline_layout`].
pub fn create_pipeline_layout() -> (info: PipelineLayoutCreateInfo)
    ensures
        info == pipeline_layout(),
{
    PipelineLayoutCreateInfo { set_layout_count: 0, push_constant_range_count: 0 }
}

/// Lays out the one graphics pipeline of the application, for the first
/// subpass of `render_pass`.
///
/// The two shader modules are bound to the vertex and the fragment stage,
/// both entered at `main`. Viewport and scissor cover the whole of the
/// swapchain extent. Everything else is fixed.
pub fn create_graphics_pipeline(
    vertex_shader_module: u64,
    fragment_shader_module: u64,
    pipeline_layout: u64,
    render_pass: u64,
    swapchain_extent: Extent2D,
) -> (info: GraphicsPipelineCreateInfo)
    ensures
        info.vertex_stage.stage == ShaderStage::Vertex,
        info.vertex_stage.module == vertex_shader_module,
        info.vertex_stage.name@ == "main"@,
        info.fragment_stage.stage == ShaderStage::Fragment,
        info.fragment_stage.module == fragment_shader_module,
        info.fragment_stage.name@ == "main"@,
        info.vertex_input_state == vertex_input_state(),
        info.input_assembly_state == input_assembly_state(),
        info.viewport == viewport_for(swapchain_extent),
        info.scissor == scissor_for(swapchain_extent),
        info.rasterization_state == rasterization_state(),
        info.multisample_state == multisample_state(),
        info.depth_stencil_state == depth_stencil_state(),
        info.color_blend_state == color_blend_state(),
        info.layout == pipeline_layout,
        info.render_pass == render_pass,
        info.subpass == 0,
{
    let main_function = String::from_str("main");

    let vertex_stage = create_pipeline_shader_stage_create_info(
        &main_function,
        vertex_shader_module,
        ShaderStage::Vertex,
    );
    let fragment_stage = create_pipeline_shader_stage_create_info(
        &main_function,
        fragment_shader_module,
        ShaderStage::Fragment,
    );

    let viewport = Viewport {
        x: 0,
        y: 0,
        width: swapchain_extent.width,
        height: swapchain_extent.height,
        min_depth: 0,
        max_depth: 0,
    };

    let scissor = Rect2D { offset: Offset2D { x: 0, y: 0 }, extent: swapchain_extent };

    GraphicsPipelineCreateInfo {
        vertex_stage,
        fragment_stage,
        vertex_input_state: create_vertex_input_state_create_info(),
        input_assembly_state: create_input_assembly_state_create_info(),
        viewport,
        scissor,
        rasterization_state: create_rasterization_state_create_info(),
        multisample_state: create_multisample_state_create_info(),
        depth_stencil_state: create_depth_stencil_state_create_info(),
        color_blend_state: create_color_blend_state_create_info(),
        layout: pipeline_layout,
        render_pass,
        subpass: 0,
    }
}

} // verus!
