//! The binding contract between the renderer and its shader program.
//!
//! The fragment program reads four inputs, bound in a fixed order: the image
//! so far as a texture, a sampler for it, the player uniform, and the line
//! records as a read-only storage buffer. The layout is declared once and
//! every frame binds its resources against it, however many lines the scene
//! holds.

use vstd::prelude::*;

verus! {

/// The number of bindings of the shader program.
pub const BINDING_COUNT: u32 = 4;

/// The shader stages that can see a binding.
#[derive(Clone, Copy, Debug, PartialEq, Eq, Structural)]
pub struct ShaderStages {
    pub vertex: bool,
    pub fragment: bool,
    pub compute: bool,
}

impl ShaderStages {
    /// The fragment stage and no other.
    pub open spec fn fragment_only_spec() -> ShaderStages {
        ShaderStages { vertex: false, fragment: true, compute: false }
    }

    /// The fragment stage and no other.
    #[verifier::when_used_as_spec(fragment_only_spec)]
    pub fn fragment_only() -> (stages: ShaderStages)
        ensures
            stages == ShaderStages::fragment_only_spec(),
    {
        ShaderStages { vertex: false, fragment: true, compute: false }
    }
}

/// The kind of resource that a binding accepts.
#[derive(Clone, Copy, Debug, PartialEq, Eq, Structural)]
pub enum BindingType {
    /// A two-dimensional texture of real-valued samples.
    Texture2d { filterable: bool },
    /// A texture sampler.
    Sampler { filtering: bool },
    /// A uniform buffer.
    UniformBuffer { dynamic_offset: bool },
    /// A storage buffer.
    StorageBuffer { read_only: bool, dynamic_offset: bool },
}

/// The four inputs of the shader program.
#[derive(Clone, Copy, Debug, PartialEq, Eq, Structural)]
pub enum ShaderInput {
    /// The image that the earlier passes have produced.
    SceneColor,
    /// The sampler through which the image is read.
    SceneSampler,
    /// The player uniform.
    PlayerUniform,
    /// The line records.
    LineStorage,
}

impl ShaderInput {
    /// The binding index of the input.
    pub open spec fn binding_spec(self) -> u32 {
        match self {
            ShaderInput::SceneColor => 0,
            ShaderInput::SceneSampler => 1,
            ShaderInput::PlayerUniform => 2,
            ShaderInput::LineStorage => 3,
        }
    }

    /// The kind of resource that the input is bound as: a filterable
    /// texture, a filtering sampler, a uniform buffer and a read-only
    /// storage buffer, the buffers without dynamic offset.
    pub open spec fn binding_type_spec(self) -> BindingType {
        match self {
            ShaderInput::SceneColor => BindingType::Texture2d { filterable: true },
            ShaderInput::SceneSampler => BindingType::Sampler { filtering: true },
            ShaderInput::PlayerUniform => BindingType::UniformBuffer { dynamic_offset: false },
            ShaderInput::LineStorage => BindingType::StorageBuffer {
                read_only: true,
                dynamic_offset: false,
            },
        }
    }

    /// The entry of the layout that declares the input.
    pub open spec fn layout_entry_spec(self) -> LayoutEntry {
        LayoutEntry {
            binding: self.binding_spec(),
            visibility: ShaderStages::fragment_only_spec(),
            ty: self.binding_type_spec(),
        }
    }

    /// The binding index of the input.
    #[verifier::when_used_as_spec(binding_spec)]
    pub fn binding(self) -> (index: u32)
        ensures
            index == self.binding_spec(),
            index < BINDING_COUNT,
    {
        match self {
            ShaderInput::SceneColor => 0,
            ShaderInput::SceneSampler => 1,
            ShaderInput::PlayerUniform => 2,
            ShaderInput::LineStorage => 3,
        }
    }

    /// The kind of resource that the input is bound as.
    #[verifier::when_used_as_spec(binding_type_spec)]
    pub fn binding_type(self) -> (ty: BindingType)
        ensures
            ty == self.binding_type_spec(),
    {
        match self {
            ShaderInput::SceneColor => BindingType::Texture2d { filterable: true },
            ShaderInput::SceneSampler => BindingType::Sampler { filtering: true },
            ShaderInput::PlayerUniform => BindingType::UniformBuffer { dynamic_offset: false },
            ShaderInput::LineStorage => BindingType::StorageBuffer {
                read_only: true,
                dynamic_offset: false,
            },
        }
    }

    /// The entry of the layout that declares the input.
    #[verifier::when_used_as_spec(layout_entry_spec)]
    pub fn layout_entry(self) -> (entry: LayoutEntry)
        ensures
            entry == self.layout_entry_spec(),
    {
        LayoutEntry {
            binding: self.binding(),
            visibility: ShaderStages::fragment_only(),
            ty: self.binding_type(),
        }
    }
}

/// One entry of the bind group layout.
#[derive(Clone, Copy, Debug, PartialEq, Eq, Structural)]
pub struct LayoutEntry {
    pub binding: u32,
    pub visibility: ShaderStages,
    pub ty: BindingType,
}

/// The inputs in binding order.
pub open spec fn inputs() -> Seq<ShaderInput> {
    seq![
        ShaderInput::SceneColor,
        ShaderInput::SceneSampler,
        ShaderInput::PlayerUniform,
        ShaderInput::LineStorage,
    ]
}

/// The bind group layout: the entries of the four inputs in binding order.
pub open spec fn layout() -> Seq<LayoutEntry> {
    Seq::new(inputs().len(), |i: int| inputs()[i].layout_entry_spec())
}

/// The resources of the bind group that a frame creates, in the order in
/// which they are bound: the source texture, the sampler, the uniform
/// binding and the line binding.
pub fn bind_group_entries() -> (entries: Vec<ShaderInput>)
    ensures
        entries@ == inputs(),
{
    let mut entries: Vec<ShaderInput> = Vec::new();
    entries.push(ShaderInput::SceneColor);
    entries.push(ShaderInput::SceneSampler);
    entries.push(ShaderInput::PlayerUniform);
    entries.push(ShaderInput::LineStorage);
    entries
}

/// The bind group layout of the shader program: four entries with the
/// bindings 0 to 3, each visible to the fragment stage only.
pub fn bind_group_layout() -> (entries: Vec<LayoutEntry>)
    ensures
        entries@ == layout(),
        entries@.len() == BINDING_COUNT,
{
    let inputs = bind_group_entries();
    let mut entries: Vec<LayoutEntry> = Vec::new();
    let mut i: usize = 0;
    while i < inputs.len()
        invariant
            inputs@ == self::inputs(),
            i <= inputs.len(),
            entries@ == layout().subrange(0, i as int),
        decreases inputs.len() - i,
    {
        entries.push(inputs[i].layout_entry());
        i += 1;
    }
    entries
}

/// The layout is sequential and matches what every frame binds. Entry `i`
/// has the binding `i`, is visible to the fragment stage only, and accepts
/// the kind of resource that a frame binds at place `i`; the kinds are, in
/// order, a filterable texture, a filtering sampler, a uniform buffer and a
/// read-only storage buffer. Nothing in the layout depends on the scene.
pub proof fn law_layout_matches_bind_group()
    ensures
        layout().len() == BINDING_COUNT,
        inputs().len() == BINDING_COUNT,
        forall|i: int|
            0 <= i < layout().len() ==> {
                &&& (#[trigger] layout()[i]).binding == i
                &&& layout()[i].visibility == ShaderStages::fragment_only_spec()
                &&& layout()[i].ty == inputs()[i].binding_type_spec()
                &&& inputs()[i].binding_spec() == i
            },
        layout()[0].ty == (BindingType::Texture2d { filterable: true }),
        layout()[1].ty == (BindingType::Sampler { filtering: true }),
        layout()[2].ty == (BindingType::UniformBuffer { dynamic_offset: false }),
        layout()[3].ty == (BindingType::StorageBuffer { read_only: true, dynamic_offset: false }),
{
}

/// The colour channels that a pass may write.
#[derive(Clone, Copy, Debug, PartialEq, Eq, Structural)]
pub struct ColorWrites {
    pub red: bool,
    pub green: bool,
    pub blue: bool,
    pub alpha: bool,
}

/// The fixed state of the render pipeline.
pub struct PipelineDescriptor {
    /// The entries of its one bind group layout.
    pub layout: Vec<LayoutEntry>,
    /// The number of vertex buffers of the vertex stage.
    pub vertex_buffers: u32,
    /// The number of colour targets of the fragment stage.
    pub color_targets: u32,
    /// Whether the output is blended with what the target holds.
    pub blending: bool,
    /// The channels of the target that are written.
    pub write_mask: ColorWrites,
    /// Whether a depth or stencil attachment is used.
    pub depth_stencil: bool,
    /// The number of samples for each pixel.
    pub sample_count: u32,
}

impl PipelineDescriptor {
    /// The one pipeline of the renderer: the layout of the four inputs, a
    /// vertex stage that draws the full-screen triangle without a vertex
    /// buffer, and one colour target in the format of the view, written
    /// in all channels without blending, without depth or stencil and
    /// without multisampling.
    pub open spec fn is_post_process(&self) -> bool {
        &&& self.layout@ == layout()
        &&& self.vertex_buffers == 0
        &&& self.color_targets == 1
        &&& !self.blending
        &&& self.write_mask == (ColorWrites { red: true, green: true, blue: true, alpha: true })
        &&& !self.depth_stencil
        &&& self.sample_count == 1
    }
}

/// Describes the pipeline that is compiled once, when the renderer starts.
pub fn pipeline_descriptor() -> (descriptor: PipelineDescriptor)
    ensures
        descriptor.is_post_process(),
{
    PipelineDescriptor {
        layout: bind_group_layout(),
        vertex_buffers: 0,
        color_targets: 1,
        blending: false,
        write_mask: ColorWrites { red: true, green: true, blue: true, alpha: true },
        depth_stencil: false,
        sample_count: 1,
    }
}

/// The name of the entry point of the fragment program.
pub fn fragment_entry_point() -> (name: &'static str)
    ensures
        name@ == "fragment"@,
{
    "fragment"
}

/// A stage of the two-dimensional render graph.
#[derive(Clone, Copy, Debug, PartialEq, Eq, Structural)]
pub enum GraphNode {
    /// The tone mapping of the engine.
    Tonemapping,
    /// The pass of this renderer.
    RayTracer,
    /// The end of the engine's post-processing.
    EndMainPassPostProcessing,
}

/// One edge of the render graph: `before` runs ahead of `after`.
#[derive(Clone, Copy, Debug, PartialEq, Eq, Structural)]
pub struct GraphEdge {
    pub before: GraphNode,
    pub after: GraphNode,
}

/// The renderer as a unit that a host installs.
#[derive(Clone, Copy, Debug, PartialEq, Eq, Structural)]
pub struct RayTracerPlugin;

impl RayTracerPlugin {
    /// The place of the pass in the render graph: behind the tone mapping
    /// and ahead of the end of post-processing.
    pub open spec fn edges() -> Seq<GraphEdge> {
        seq![
            GraphEdge { before: GraphNode::Tonemapping, after: GraphNode::RayTracer },
            GraphEdge { before: GraphNode::RayTracer, after: GraphNode::EndMainPassPostProcessing },
        ]
    }

    /// The edges that place the pass in the render graph.
    pub fn graph_edges(&self) -> (edges: Vec<GraphEdge>)
        ensures
            edges@ == RayTracerPlugin::edges(),
    {
        let mut edges: Vec<GraphEdge> = Vec::new();
        edges.push(GraphEdge { before: GraphNode::Tonemapping, after: GraphNode::RayTracer });
        edges.push(
            GraphEdge { before: GraphNode::RayTracer, after: GraphNode::EndMainPassPostProcessing },
        );
        edges
    }
}

} // verus!
