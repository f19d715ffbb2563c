use render_core::context::RenderCore;
use render_core::frame::{clear_color, plan_frame, RenderCommand};
use render_core::geometry::{pentagon_indices, Shape, PENTAGON_VERTEX_COUNT};
use render_core::pipeline::adapter_prefs;

#[test]
fn pentagon_index_buffer_has_ten_entries_with_unused_padding() {
    let idx = pentagon_indices();
    assert_eq!(idx, vec![0u16, 1, 4, 1, 2, 4, 2, 3, 4, 0]);
    assert_eq!(idx.len(), 10);
    let draw = Shape::Pentagon.draw_call();
    assert_eq!(draw.count, 9);
    // The padding entry sits past the drawn range: only the first nine
    // entries form triangles.
    assert!((draw.count as usize) < idx.len());
    assert_eq!(idx[9], 0);
    for i in idx {
        assert!(i < PENTAGON_VERTEX_COUNT);
    }
}

#[test]
fn triangle_draw_call_is_three_vertices_one_instance() {
    let d = Shape::Triangle.draw_call();
    assert!(!d.indexed);
    assert_eq!(d.count, 3);
    assert_eq!(d.instances, 1);
}

#[test]
fn pentagon_draw_call_is_indexed_one_instance() {
    let d = Shape::Pentagon.draw_call();
    assert!(d.indexed);
    assert_eq!(d.instances, 1);
}

#[test]
fn clear_color_is_the_fixed_background() {
    let c = clear_color();
    assert_eq!((c.r_tenths, c.g_tenths, c.b_tenths, c.a_tenths), (1, 2, 3, 10));
}

#[test]
fn triangle_frame_records_one_pass_and_one_draw() {
    let plan = plan_frame(&Shape::Triangle);
    assert_eq!(
        plan.commands,
        vec![
            RenderCommand::BeginPass { clear: clear_color() },
            RenderCommand::SetPipeline,
            RenderCommand::Draw { vertices: 3, instances: 1 },
            RenderCommand::EndPass,
        ]
    );
}

#[test]
fn pentagon_frame_binds_buffers_and_draws_nine_indices() {
    let plan = plan_frame(&Shape::Pentagon);
    assert_eq!(
        plan.commands,
        vec![
            RenderCommand::BeginPass { clear: clear_color() },
            RenderCommand::SetPipeline,
            RenderCommand::BindVertexBuffer,
            RenderCommand::BindIndexBuffer,
            RenderCommand::DrawIndexed { indices: 9, instances: 1 },
            RenderCommand::EndPass,
        ]
    );
}

#[test]
fn every_frame_issues_exactly_one_draw_call() {
    for shape in [Shape::Triangle, Shape::Pentagon] {
        let plan = plan_frame(&shape);
        let draws = plan
            .commands
            .iter()
            .filter(|c| {
                matches!(c, RenderCommand::Draw { .. } | RenderCommand::DrawIndexed { .. })
            })
            .count();
        assert_eq!(draws, 1);
    }
}

#[test]
fn render_returns_the_frame_plan_of_the_shape() {
    let mut s = RenderCore::new(320, 200, 1, Shape::Pentagon);
    let plan = s.render(Ok(())).unwrap();
    assert_eq!(plan.commands, plan_frame(&Shape::Pentagon).commands);
}

#[test]
fn adapter_preferences_match_startup_negotiation() {
    let a = adapter_prefs();
    assert!(a.high_performance);
    assert!(a.require_surface_compatible);
    assert!(!a.allow_fallback);
}
