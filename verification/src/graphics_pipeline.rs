//! Graphics pipelines: what one is created from, given its shaders, its
//! vertex layout and the state that is left to draw time.

use crate::raw_handle::HasRawVkHandle;
use crate::render_pass::{RenderPass, PIPELINE_BIND_POINT_GRAPHICS};
use crate::shader_module::{
    has_no_zero, stage_of, PipelineShaderStageCreateInfo, ShaderModule,
};
use vstd::prelude::*;

verus! {

pub const DYNAMIC_STATE_VIEWPORT: i32 = 0;

pub const DYNAMIC_STATE_SCISSOR: i32 = 1;

pub const DYNAMIC_STATE_VIEWPORT_WITH_COUNT: i32 = 1000267003;

pub const DYNAMIC_STATE_SCISSOR_WITH_COUNT: i32 = 1000267004;

pub const DYNAMIC_STATE_VERTEX_INPUT: i32 = 1000352000;

pub const POLYGON_MODE_FILL: i32 = 0;

pub const CULL_MODE_BACK: u32 = 0x2;

pub const FRONT_FACE_CLOCKWISE: i32 = 1;

pub const SAMPLE_COUNT_1: u32 = 0x1;

pub const LOGIC_OP_COPY: i32 = 3;

pub const BLEND_FACTOR_ZERO: i32 = 0;

pub const BLEND_FACTOR_ONE: i32 = 1;

pub const BLEND_OP_ADD: i32 = 0;

/// All four color components.
pub const COLOR_COMPONENT_RGBA: u32 = 0xF;

/// How one vertex buffer is stepped through.
#[derive(Clone, Copy, Debug, PartialEq, Eq, Structural)]
pub struct VertexInputBindingDescription {
    pub binding: u32,
    pub stride: u32,
    pub input_rate: i32,
}

/// Where one vertex attribute lies in its buffer.
#[derive(Clone, Copy, Debug, PartialEq, Eq, Structural)]
pub struct VertexInputAttributeDescription {
    pub location: u32,
    pub binding: u32,
    pub format: i32,
    pub offset: u32,
}

/// The vertex buffers and attributes that a pipeline reads.
#[derive(Debug)]
pub struct VertexInputState {
    pub bindings: Vec<VertexInputBindingDescription>,
    pub attributes: Vec<VertexInputAttributeDescription>,
}

/// How vertices are assembled into primitives.
#[derive(Clone, Copy, Debug, PartialEq, Eq, Structural)]
pub struct InputAssemblyState {
    pub topology: i32,
    pub primitive_restart_enable: bool,
}

/// How many viewports and scissors a pipeline has; both are set at draw
/// time.
#[derive(Clone, Copy, Debug, PartialEq, Eq, Structural)]
pub struct ViewportState {
    pub viewport_count: u32,
    pub scissor_count: u32,
}

/// How primitives are rasterized. The depth bias is off and lines are one
/// pixel wide.
#[derive(Clone, Copy, Debug, PartialEq, Eq, Structural)]
pub struct RasterizationState {
    pub depth_clamp_enable: bool,
    pub rasterizer_discard_enable: bool,
    pub polygon_mode: i32,
    pub cull_mode: u32,
    pub front_face: i32,
    pub depth_bias_enable: bool,
}

/// How samples are taken.
#[derive(Clone, Copy, Debug, PartialEq, Eq, Structural)]
pub struct MultisampleState {
    pub rasterization_samples: u32,
    pub sample_shading_enable: bool,
    pub alpha_to_coverage_enable: bool,
    pub alpha_to_one_enable: bool,
}

/// How the output of the fragment shader is blended into one attachment.
#[derive(Clone, Copy, Debug, PartialEq, Eq, Structural)]
pub struct ColorBlendAttachmentState {
    pub blend_enable: bool,
    pub src_color_blend_factor: i32,
    pub dst_color_blend_factor: i32,
    pub color_blend_op: i32,
    pub src_alpha_blend_factor: i32,
    pub dst_alpha_blend_factor: i32,
    pub alpha_blend_op: i32,
    pub color_write_mask: u32,
}

/// How the output of the fragment shader is blended; the blend constants
/// are zero.
#[derive(Clone, Copy, Debug, PartialEq, Eq, Structural)]
pub struct ColorBlendState {
    pub logic_op_enable: bool,
    pub logic_op: i32,
    pub attachment: ColorBlendAttachmentState,
}

/// What a graphics pipeline is created from.
#[derive(Debug)]
pub struct GraphicsPipelineCreateInfo {
    pub flags: u32,
    pub stages: Vec<PipelineShaderStageCreateInfo>,
    pub vertex_input_state: Option<VertexInputState>,
    pub input_assembly_state: InputAssemblyState,
    pub patch_control_points: u32,
    pub viewport_state: Option<ViewportState>,
    pub rasterization_state: RasterizationState,
    pub multisample_state: MultisampleState,
    pub color_blend_state: ColorBlendState,
    pub dynamic_states: Vec<i32>,
    pub layout: u64,
    pub render_pass: u64,
    pub subpass: u32,
    pub base_pipeline_handle: u64,
    pub base_pipeline_index: i32,
}

/// Why a graphics pipeline cannot be created from what was asked for.
#[derive(Clone, Copy, Debug, PartialEq, Eq, Structural)]
pub enum PipelineError {
    /// The name of the entry point of the shader at `position` is no C
    /// string.
    MalformedEntryPoint { position: usize },
    /// The render pass does not have exactly one attachment.
    UnsupportedAttachmentCount { count: u32 },
    /// The viewport is not left to draw time.
    ViewportNotDynamic,
    /// The scissor is not left to draw time.
    ScissorNotDynamic,
}

/// Anything that can be bound as a pipeline.
pub trait Pipeline {
    /// The bind point of the pipeline.
    spec fn spec_bind_point(&self) -> i32;

    fn bind_point(&self) -> (r: i32)
        ensures
            r == self.spec_bind_point(),
    ;
}

/// A created graphics pipeline.
#[derive(Clone, Copy, Debug, PartialEq, Eq, Structural)]
pub struct GraphicsPipeline {
    pub handle: u64,
}

/// The fixed rasterization: filled polygons, back faces culled, clockwise
/// front faces.
pub open spec fn fixed_rasterization() -> RasterizationState {
    RasterizationState {
        depth_clamp_enable: false,
        rasterizer_discard_enable: false,
        polygon_mode: POLYGON_MODE_FILL,
        cull_mode: CULL_MODE_BACK,
        front_face: FRONT_FACE_CLOCKWISE,
        depth_bias_enable: false,
    }
}

/// The fixed multisampling: one sample per pixel.
pub open spec fn fixed_multisample() -> MultisampleState {
    MultisampleState {
        rasterization_samples: SAMPLE_COUNT_1,
        sample_shading_enable: false,
        alpha_to_coverage_enable: false,
        alpha_to_one_enable: false,
    }
}

/// The fixed blending: none, every component written.
pub open spec fn fixed_color_blend() -> ColorBlendState {
    ColorBlendState {
        logic_op_enable: false,
        logic_op: LOGIC_OP_COPY,
        attachment: ColorBlendAttachmentState {
            blend_enable: false,
            src_color_blend_factor: BLEND_FACTOR_ONE,
            dst_color_blend_factor: BLEND_FACTOR_ZERO,
            color_blend_op: BLEND_OP_ADD,
            src_alpha_blend_factor: BLEND_FACTOR_ONE,
            dst_alpha_blend_factor: BLEND_FACTOR_ZERO,
            alpha_blend_op: BLEND_OP_ADD,
            color_write_mask: COLOR_COMPONENT_RGBA,
        },
    }
}

/// The first shader whose entry point is no C string stands at `position`.
pub open spec fn first_malformed(modules: Seq<ShaderModule>, position: int) -> bool {
    &&& 0 <= position < modules.len()
    &&& !has_no_zero(modules[position].entry_point@)
    &&& forall|j: int| 0 <= j < position ==> has_no_zero((#[trigger] modules[j]).entry_point@)
}

/// Every shader has an entry point that is a C string.
pub open spec fn all_well_formed(modules: Seq<ShaderModule>) -> bool {
    forall|j: int| 0 <= j < modules.len() ==> has_no_zero((#[trigger] modules[j]).entry_point@)
}

/// What is wrong with a request for a pipeline once its shaders are found
/// sound: the render pass has not exactly one attachment, or the viewport
/// or the scissor is not dynamic.
pub open spec fn state_error(attachment_count: u32, dynamic_states: Seq<i32>) -> Option<
    PipelineError,
> {
    if attachment_count != 1 {
        Some(PipelineError::UnsupportedAttachmentCount { count: attachment_count })
    } else if !dynamic_states.contains(DYNAMIC_STATE_VIEWPORT) {
        Some(PipelineError::ViewportNotDynamic)
    } else if !dynamic_states.contains(DYNAMIC_STATE_SCISSOR) {
        Some(PipelineError::ScissorNotDynamic)
    } else {
        None
    }
}

/// The list, or an empty one for none.
pub open spec fn bindings_of(list: Option<&Vec<VertexInputBindingDescription>>) -> Seq<
    VertexInputBindingDescription,
> {
    match list {
        Some(v) => v@,
        None => Seq::empty(),
    }
}

/// The list, or an empty one for none.
pub open spec fn attributes_of(list: Option<&Vec<VertexInputAttributeDescription>>) -> Seq<
    VertexInputAttributeDescription,
> {
    match list {
        Some(v) => v@,
        None => Seq::empty(),
    }
}

/// Whether `state` is one of `states`.
pub fn has_state(states: &Vec<i32>, state: i32) -> (r: bool)
    ensures
        r == states@.contains(state),
{
    let mut i: usize = 0;
    while i < states.len()
        invariant
            i <= states@.len(),
            forall|j: int| 0 <= j < i ==> states@[j] != state,
        decreases states.len() - i,
    {
        if states[i] == state {
            return true;
        }
        i = i + 1;
    }
    false
}

/// A copy of `states`.
pub fn copy_states(states: &Vec<i32>) -> (r: Vec<i32>)
    ensures
        r@ == states@,
{
    let mut out: Vec<i32> = Vec::new();
    let mut i: usize = 0;
    while i < states.len()
        invariant
            i <= states@.len(),
            out@ == states@.subrange(0, i as int),
        decreases states.len() - i,
    {
        out.push(states[i]);
        assert(out@ =~= states@.subrange(0, i + 1));
        i = i + 1;
    }
    assert(out@ =~= states@);
    out
}

/// The vertex input state for the given bindings and attributes.
pub fn vertex_input(
    vertex_bindings: Option<&Vec<VertexInputBindingDescription>>,
    vertex_attributes: Option<&Vec<VertexInputAttributeDescription>>,
) -> (r: VertexInputState)
    ensures
        r.bindings@ == bindings_of(vertex_bindings),
        r.attributes@ == attributes_of(vertex_attributes),
{
    let mut bindings: Vec<VertexInputBindingDescription> = Vec::new();
    match vertex_bindings {
        Some(list) => {
            let mut i: usize = 0;
            while i < list.len()
                invariant
                    i <= list@.len(),
                    bindings@ == list@.subrange(0, i as int),
                decreases list.len() - i,
            {
                bindings.push(list[i]);
                assert(bindings@ =~= list@.subrange(0, i + 1));
                i = i + 1;
            }
            assert(bindings@ =~= list@);
        },
        None => {},
    }
    let mut attributes: Vec<VertexInputAttributeDescription> = Vec::new();
    match vertex_attributes {
        Some(list) => {
            let mut i: usize = 0;
            while i < list.len()
                invariant
                    i <= list@.len(),
                    attributes@ == list@.subrange(0, i as int),
                decreases list.len() - i,
            {
                attributes.push(list[i]);
                assert(attributes@ =~= list@.subrange(0, i + 1));
                i = i + 1;
            }
            assert(attributes@ =~= list@);
        },
        None => {},
    }
    VertexInputState { bindings, attributes }
}

impl GraphicsPipeline {
    /// What to create a graphics pipeline from.
    ///
    /// There is one stage per shader module. The vertex input state is left
    /// out where it is dynamic, the viewport state where the counts of both
    /// viewports and scissors are. Rasterization, multisampling and blending
    /// are fixed. Fails on a shader whose entry point is no C string, on a
    /// render pass with another number of attachments than one, and where
    /// viewport or scissor are not dynamic.
    pub fn create_info(
        shader_modules: &Vec<ShaderModule>,
        vertex_bindings: Option<&Vec<VertexInputBindingDescription>>,
        vertex_attributes: Option<&Vec<VertexInputAttributeDescription>>,
        dynamic_states: &Vec<i32>,
        topology: i32,
        primitive_restart: bool,
        pipeline_layout: u64,
        render_pass: &RenderPass,
    ) -> (r: Result<GraphicsPipelineCreateInfo, PipelineError>)
        ensures
            match r {
                Ok(info) => {
                    &&& all_well_formed(shader_modules@)
                    &&& state_error(render_pass.attachment_count, dynamic_states@) is None
                    &&& info.flags == 0
                    &&& info.stages@.len() == shader_modules@.len()
                    &&& forall|i: int|
                        0 <= i < shader_modules@.len() ==> {
                            &&& (#[trigger] info.stages@[i]).flags == 0
                            &&& info.stages@[i].stage == stage_of(shader_modules@[i].kind)
                            &&& info.stages@[i].module == shader_modules@[i].handle
                            &&& info.stages@[i].name@ == shader_modules@[i].entry_point@.push(0u8)
                        }
                    &&& info.vertex_input_state is None == dynamic_states@.contains(
                        DYNAMIC_STATE_VERTEX_INPUT,
                    )
                    &&& info.vertex_input_state is Some ==> {
                        &&& info.vertex_input_state->0.bindings@ == bindings_of(vertex_bindings)
                        &&& info.vertex_input_state->0.attributes@ == attributes_of(
                            vertex_attributes,
                        )
                    }
                    &&& info.input_assembly_state == (InputAssemblyState {
                        topology,
                        primitive_restart_enable: primitive_restart,
                    })
                    &&& info.patch_control_points == 0
                    &&& info.viewport_state == (if dynamic_states@.contains(
                        DYNAMIC_STATE_VIEWPORT_WITH_COUNT,
                    ) && dynamic_states@.contains(DYNAMIC_STATE_SCISSOR_WITH_COUNT) {
                        None
                    } else {
                        Some(ViewportState { viewport_count: 1, scissor_count: 1 })
                    })
                    &&& info.rasterization_state == fixed_rasterization()
                    &&& info.multisample_state == fixed_multisample()
                    &&& info.color_blend_state == fixed_color_blend()
                    &&& info.dynamic_states@ == dynamic_states@
                    &&& info.layout == pipeline_layout
                    &&& info.render_pass == render_pass.handle
                    &&& info.subpass == 0
                    &&& info.base_pipeline_handle == 0
                    &&& info.base_pipeline_index == -1
                },
                Err(PipelineError::MalformedEntryPoint { position }) => first_malformed(
                    shader_modules@,
                    position as int,
                ),
                Err(e) => all_well_formed(shader_modules@) && state_error(
                    render_pass.attachment_count,
                    dynamic_states@,
                ) == Some(e),
            },
    {
        let mut stages: Vec<PipelineShaderStageCreateInfo> = Vec::new();
        let mut i: usize = 0;
        while i < shader_modules.len()
            invariant
                i <= shader_modules@.len(),
                stages@.len() == i,
                forall|j: int| 0 <= j < i ==> has_no_zero((#[trigger] shader_modules@[j]).entry_point@),
                forall|j: int|
                    0 <= j < i ==> {
                        &&& (#[trigger] stages@[j]).flags == 0
                        &&& stages@[j].stage == stage_of(shader_modules@[j].kind)
                        &&& stages@[j].module == shader_modules@[j].handle
                        &&& stages@[j].name@ == shader_modules@[j].entry_point@.push(0u8)
                    },
            decreases shader_modules.len() - i,
        {
            match shader_modules[i].pipeline_shader_stage_create_info() {
                Some(stage) => {
                    stages.push(stage);
                },
                None => {
                    return Err(PipelineError::MalformedEntryPoint { position: i });
                },
            }
            i = i + 1;
        }
        let vertex_input_state = if !has_state(dynamic_states, DYNAMIC_STATE_VERTEX_INPUT) {
            Some(vertex_input(vertex_bindings, vertex_attributes))
        } else {
            None
        };
        let v_count = has_state(dynamic_states, DYNAMIC_STATE_VIEWPORT_WITH_COUNT);
        let s_count = has_state(dynamic_states, DYNAMIC_STATE_SCISSOR_WITH_COUNT);
        let viewport_state = if !(v_count && s_count) {
            Some(ViewportState { viewport_count: 1, scissor_count: 1 })
        } else {
            None
        };
        if render_pass.attachment_count() != 1 {
            return Err(
                PipelineError::UnsupportedAttachmentCount { count: render_pass.attachment_count() },
            );
        }
        if !has_state(dynamic_states, DYNAMIC_STATE_VIEWPORT) {
            return Err(PipelineError::ViewportNotDynamic);
        }
        if !has_state(dynamic_states, DYNAMIC_STATE_SCISSOR) {
            return Err(PipelineError::ScissorNotDynamic);
        }
        Ok(
            GraphicsPipelineCreateInfo {
                flags: 0,
                stages,
                vertex_input_state,
                input_assembly_state: InputAssemblyState {
                    topology,
                    primitive_restart_enable: primitive_restart,
                },
                patch_control_points: 0,
                viewport_state,
                rasterization_state: RasterizationState {
                    depth_clamp_enable: false,
                    rasterizer_discard_enable: false,
                    polygon_mode: POLYGON_MODE_FILL,
                    cull_mode: CULL_MODE_BACK,
                    front_face: FRONT_FACE_CLOCKWISE,
                    depth_bias_enable: false,
                },
                multisample_state: MultisampleState {
                    rasterization_samples: SAMPLE_COUNT_1,
                    sample_shading_enable: false,
                    alpha_to_coverage_enable: false,
                    alpha_to_one_enable: false,
                },
                color_blend_state: ColorBlendState {
                    logic_op_enable: false,
                    logic_op: LOGIC_OP_COPY,
                    attachment: ColorBlendAttachmentState {
                        blend_enable: false,
                        src_color_blend_factor: BLEND_FACTOR_ONE,
                        dst_color_blend_factor: BLEND_FACTOR_ZERO,
                        color_blend_op: BLEND_OP_ADD,
                        src_alpha_blend_factor: BLEND_FACTOR_ONE,
                        dst_alpha_blend_factor: BLEND_FACTOR_ZERO,
                        alpha_blend_op: BLEND_OP_ADD,
                        color_write_mask: COLOR_COMPONENT_RGBA,
                    },
                },
                dynamic_states: copy_states(dynamic_states),
                layout: pipeline_layout,
                render_pass: render_pass.handle,
                subpass: 0,
                base_pipeline_handle: 0,
                base_pipeline_index: -1,
            },
        )
    }

    pub fn new(handle: u64) -> (r: GraphicsPipeline)
        ensures
            r.handle == handle,
    {
        GraphicsPipeline { handle }
    }
}

impl Pipeline for GraphicsPipeline {
    open spec fn spec_bind_point(&self) -> i32 {
        PIPELINE_BIND_POINT_GRAPHICS
    }

    fn bind_point(&self) -> i32 {
        PIPELINE_BIND_POINT_GRAPHICS
    }
}

impl HasRawVkHandle<u64> for GraphicsPipeline {
    open spec fn raw_handle(&self) -> u64 {
        self.handle
    }

    fn get_vk_handle(&self) -> u64 {
        self.handle
    }
}

} // verus!
