//! A two-dimensional ray-marching scene kept in step with its GPU mirror.
//!
//! The crate holds the decisions of a post-process renderer that draws line
//! segments (solid walls and mirrors) around a player: how a scene line is
//! projected to its GPU record, how the line buffer is rebuilt each frame,
//! which bindings the shader program expects, in which order the render node
//! resolves its inputs and when it skips a frame, and in which direction the
//! pressed keys move the player. Talking to the engine and to the GPU is left
//! to the caller, who exchanges plain values with the functions here.

pub mod geometry;
pub mod line_buffer;
pub mod movement;
pub mod node;
pub mod pipeline;
pub mod scene;

pub use geometry::{Point2, Rgba, Scalar, Vec4};
pub use line_buffer::{write_lines_buffer, LineBuffer};
pub use movement::{move_player, Heading, Keys, SPEED};
pub use node::{DrawCall, NodeAction, NodeState, Outcome, RayTracerNode, Readiness};
pub use pipeline::{
    bind_group_entries, bind_group_layout, fragment_entry_point, pipeline_descriptor, BindingType,
    ColorWrites, GraphEdge, GraphNode, LayoutEntry, PipelineDescriptor, RayTracerPlugin, ShaderInput,
    ShaderStages, BINDING_COUNT,
};
pub use scene::{Line, LineKind, ShaderInputs, ShaderLine};
