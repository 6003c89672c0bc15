use game_engine::commands::{RenderCommand, UniformWrite};
use game_engine::events::{is_close_request_event, KeyAction, Viewport, WindowEvent, KEY_ESCAPE};
use game_engine::geometry::{GeometryBuffers, IndexBuffer};
use game_engine::render_loop::RenderLoop;
use game_engine::shader::Shader;
use game_engine::uniforms::UniformValue;

fn quad_loop() -> RenderLoop {
    let shader = Shader::new(5, vec!["x".to_string(), "y".to_string()]);
    let geometry = GeometryBuffers {
        vertex_array: 10,
        vertex_buffer: 11,
        vertex_count: 4,
        index_buffer: Some(IndexBuffer { buffer: 12, indices: vec![0, 1, 3, 1, 2, 3] }),
    };
    RenderLoop::new(shader, geometry, 800, 800)
}

fn escape_press() -> WindowEvent {
    WindowEvent::Key { code: KEY_ESCAPE, action: KeyAction::Press }
}

#[test]
fn frame_commands_come_in_fixed_order() {
    let mut l = quad_loop();
    let writes = vec![UniformWrite { name: "x".to_string(), value: UniformValue::Int(1) }];
    let cmds = l.iteration(&vec![], &writes);
    assert_eq!(
        cmds,
        vec![
            RenderCommand::ClearColorBuffer,
            RenderCommand::UseProgram { program: 5 },
            RenderCommand::BindVertexArray { array: 10 },
            RenderCommand::BindElementBuffer { buffer: 12 },
            RenderCommand::SetUniform { name: "x".to_string(), value: UniformValue::Int(1) },
            RenderCommand::DrawIndexedTriangles { index_count: 6 },
            RenderCommand::SwapBuffers,
        ]
    );
}

#[test]
fn non_indexed_frame_draws_all_vertices() {
    let shader = Shader::new(5, vec![]);
    let geometry = GeometryBuffers {
        vertex_array: 10,
        vertex_buffer: 11,
        vertex_count: 3,
        index_buffer: None,
    };
    let mut l = RenderLoop::new(shader, geometry, 800, 800);
    let cmds = l.iteration(&vec![], &vec![]);
    assert_eq!(
        cmds,
        vec![
            RenderCommand::ClearColorBuffer,
            RenderCommand::UseProgram { program: 5 },
            RenderCommand::BindVertexArray { array: 10 },
            RenderCommand::DrawTriangles { vertex_count: 3 },
            RenderCommand::SwapBuffers,
        ]
    );
}

#[test]
fn resize_sets_viewport_before_the_frame_draws() {
    let mut l = quad_loop();
    let events = vec![WindowEvent::FramebufferResize { width: 640, height: 480 }];
    let cmds = l.iteration(&events, &vec![]);
    assert_eq!(l.viewport, Viewport { x: 0, y: 0, width: 640, height: 480 });
    let viewport_at = cmds
        .iter()
        .position(|c| {
            *c == RenderCommand::SetViewport {
                viewport: Viewport { x: 0, y: 0, width: 640, height: 480 },
            }
        })
        .unwrap();
    let draw_at = cmds
        .iter()
        .position(|c| matches!(c, RenderCommand::DrawIndexedTriangles { .. }))
        .unwrap();
    assert!(viewport_at < draw_at);
}

#[test]
fn last_resize_of_a_batch_wins() {
    let mut l = quad_loop();
    let events = vec![
        WindowEvent::FramebufferResize { width: 640, height: 480 },
        WindowEvent::Other,
        WindowEvent::FramebufferResize { width: 320, height: 200 },
    ];
    let cmds = l.process_events(&events);
    assert_eq!(l.viewport, Viewport { x: 0, y: 0, width: 320, height: 200 });
    assert_eq!(
        cmds,
        vec![
            RenderCommand::SetViewport {
                viewport: Viewport { x: 0, y: 0, width: 640, height: 480 },
            },
            RenderCommand::SetViewport {
                viewport: Viewport { x: 0, y: 0, width: 320, height: 200 },
            },
        ]
    );
}

#[test]
fn escape_press_stops_the_loop_after_its_frame() {
    let mut l = quad_loop();
    assert!(l.should_run());
    let cmds = l.iteration(&vec![escape_press()], &vec![]);
    // The observing iteration still renders its one frame...
    assert_eq!(
        cmds.iter().filter(|c| matches!(c, RenderCommand::DrawIndexedTriangles { .. })).count(),
        1
    );
    assert_eq!(cmds.last(), Some(&RenderCommand::SwapBuffers));
    // ...and the loop condition fails before any further one.
    assert!(!l.should_run());
}

#[test]
fn only_an_escape_press_requests_close() {
    assert!(is_close_request_event(&escape_press()));
    assert!(!is_close_request_event(&WindowEvent::Key {
        code: KEY_ESCAPE,
        action: KeyAction::Release,
    }));
    assert!(!is_close_request_event(&WindowEvent::Key { code: 65, action: KeyAction::Press }));
    assert!(!is_close_request_event(&WindowEvent::Other));
    assert!(!is_close_request_event(&WindowEvent::FramebufferResize { width: 1, height: 1 }));
}

#[test]
fn other_keys_and_events_do_not_close() {
    let mut l = quad_loop();
    let events = vec![
        WindowEvent::Key { code: KEY_ESCAPE, action: KeyAction::Release },
        WindowEvent::Key { code: KEY_ESCAPE, action: KeyAction::Repeat },
        WindowEvent::Key { code: 65, action: KeyAction::Press },
        WindowEvent::Other,
    ];
    l.process_events(&events);
    assert!(l.should_run());
}

#[test]
fn draw_reads_but_never_writes_geometry() {
    let mut l = quad_loop();
    let geometry_before = l.geometry.clone();
    let shader_id_before = l.shader.id;
    let writes = vec![UniformWrite { name: "y".to_string(), value: UniformValue::Bool(true) }];
    l.iteration(&vec![], &writes);
    l.iteration(&vec![WindowEvent::FramebufferResize { width: 100, height: 100 }], &writes);
    assert_eq!(l.geometry, geometry_before);
    assert_eq!(l.shader.id, shader_id_before);
}

#[test]
fn frame_uniform_writes_reach_the_store_in_order() {
    let mut l = quad_loop();
    let writes = vec![
        UniformWrite { name: "x".to_string(), value: UniformValue::Int(1) },
        UniformWrite { name: "x".to_string(), value: UniformValue::Int(2) },
        UniformWrite { name: "absent".to_string(), value: UniformValue::Int(9) },
    ];
    l.iteration(&vec![], &writes);
    assert_eq!(l.shader.uniforms.entries[0].value, Some(UniformValue::Int(2)));
    assert_eq!(l.shader.uniforms.entries[1].value, None);
    assert_eq!(l.shader.uniforms.entries.len(), 2);
}
