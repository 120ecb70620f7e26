use ray_tracer::{
    bind_group_entries, bind_group_layout, fragment_entry_point, pipeline_descriptor, BindingType,
    ColorWrites, GraphEdge, GraphNode, RayTracerPlugin, ShaderInput, ShaderStages,
    BINDING_COUNT,
};

#[test]
fn layout_has_four_sequential_fragment_bindings() {
    let layout = bind_group_layout();
    assert_eq!(layout.len(), 4);
    assert_eq!(BINDING_COUNT, 4);
    for (i, entry) in layout.iter().enumerate() {
        assert_eq!(entry.binding as usize, i);
        assert_eq!(
            entry.visibility,
            ShaderStages { vertex: false, fragment: true, compute: false }
        );
    }
    assert_eq!(layout[0].ty, BindingType::Texture2d { filterable: true });
    assert_eq!(layout[1].ty, BindingType::Sampler { filtering: true });
    assert_eq!(layout[2].ty, BindingType::UniformBuffer { dynamic_offset: false });
    assert_eq!(
        layout[3].ty,
        BindingType::StorageBuffer { read_only: true, dynamic_offset: false }
    );
}

#[test]
fn bind_group_lists_texture_sampler_uniform_lines() {
    assert_eq!(
        bind_group_entries(),
        vec![
            ShaderInput::SceneColor,
            ShaderInput::SceneSampler,
            ShaderInput::PlayerUniform,
            ShaderInput::LineStorage,
        ]
    );
}

#[test]
fn bind_group_matches_layout_entry_by_entry() {
    let layout = bind_group_layout();
    let entries = bind_group_entries();
    assert_eq!(layout.len(), entries.len());
    for (entry, input) in layout.iter().zip(entries.iter()) {
        assert_eq!(entry.binding, input.binding());
        assert_eq!(entry.ty, input.binding_type());
        assert_eq!(*entry, input.layout_entry());
    }
}

#[test]
fn pipeline_is_a_plain_fullscreen_pass() {
    let d = pipeline_descriptor();
    assert_eq!(d.layout, bind_group_layout());
    assert_eq!(d.vertex_buffers, 0);
    assert_eq!(d.color_targets, 1);
    assert!(!d.blending);
    assert_eq!(d.write_mask, ColorWrites { red: true, green: true, blue: true, alpha: true });
    assert!(!d.depth_stencil);
    assert_eq!(d.sample_count, 1);
    assert_eq!(ShaderStages::fragment_only().fragment, true);
}

#[test]
fn fragment_program_starts_at_fragment() {
    assert_eq!(fragment_entry_point(), "fragment");
}

#[test]
fn pass_runs_between_tonemapping_and_end_of_post_processing() {
    assert_eq!(
        RayTracerPlugin.graph_edges(),
        vec![
            GraphEdge { before: GraphNode::Tonemapping, after: GraphNode::RayTracer },
            GraphEdge { before: GraphNode::RayTracer, after: GraphNode::EndMainPassPostProcessing },
        ]
    );
}
