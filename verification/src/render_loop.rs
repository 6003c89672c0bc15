//! The per-frame render loop.
//!
//! Each iteration, while no close was requested: drain the pending window
//! events and apply their two meaningful effects (a resize moves the
//! viewport, an escape press asks the loop to close), then clear, bind the
//! program and the geometry, write the frame's uniforms, draw, and present.
//! Event intake precedes rendering, so a resize is reflected in the
//! viewport before the same frame's draw; a close request is honored at
//! the next iteration's loop condition, so at most the observing
//! iteration's own frame still renders.
//!
//! Binding state on the driver side is global and need not persist across
//! frames, so every frame's command list re-asserts program, vertex array
//! and index buffer before its draw; the commands make that order
//! structural rather than a call-order discipline.

use vstd::prelude::*;

use crate::commands::{RenderCommand, UniformWrite};
use crate::events::{
    closing_after,
    is_close_request_event,
    lemma_requests_close_step,
    requests_close,
    viewport_after,
    Viewport,
    WindowEvent,
};
use crate::geometry::GeometryBuffers;
use crate::shader::Shader;
use crate::uniforms::{has_name, lemma_absent_name_write_is_noop, write_once, UniformValue};

verus! {

/// The viewport updates a batch of events asks for: one command per
/// resize, in event order.
pub open spec fn viewport_commands(events: Seq<WindowEvent>) -> Seq<RenderCommand>
    decreases events.len(),
{
    if events.len() == 0 {
        Seq::<RenderCommand>::empty()
    } else {
        viewport_commands(events.drop_last()) + (match events.last() {
            WindowEvent::FramebufferResize { width, height } => seq![
                RenderCommand::SetViewport {
                    viewport: Viewport { x: 0, y: 0, width, height },
                },
            ],
            _ => Seq::<RenderCommand>::empty(),
        })
    }
}

/// A frame's uniform writes as driver commands, in order.
pub open spec fn uniform_commands(uniforms: Seq<UniformWrite>) -> Seq<RenderCommand> {
    uniforms.map_values(
        |u: UniformWrite| RenderCommand::SetUniform { name: u.name, value: u.value },
    )
}

/// The binds a frame re-asserts before its draw: the program, the vertex
/// array, and the index buffer where the draw is indexed.
pub open spec fn bind_commands(program: u32, geometry: GeometryBuffers) -> Seq<RenderCommand> {
    seq![
        RenderCommand::UseProgram { program },
        RenderCommand::BindVertexArray { array: geometry.vertex_array },
    ] + (match geometry.index_buffer {
        Some(ib) => seq![RenderCommand::BindElementBuffer { buffer: ib.buffer }],
        None => Seq::<RenderCommand>::empty(),
    })
}

/// The draw call the geometry asks for: indexed over the whole index
/// buffer, or plain over all vertices.
pub open spec fn draw_command(geometry: GeometryBuffers) -> RenderCommand {
    match geometry.index_buffer {
        Some(ib) => RenderCommand::DrawIndexedTriangles {
            index_count: ib.indices@.len() as usize,
        },
        None => RenderCommand::DrawTriangles { vertex_count: geometry.vertex_count },
    }
}

/// One frame's commands in order: clear, bind program and geometry, write
/// the frame's uniforms, draw, present.
pub open spec fn frame_commands(
    program: u32,
    geometry: GeometryBuffers,
    uniforms: Seq<UniformWrite>,
) -> Seq<RenderCommand> {
    seq![RenderCommand::ClearColorBuffer] + bind_commands(program, geometry) + uniform_commands(
        uniforms,
    ) + seq![draw_command(geometry), RenderCommand::SwapBuffers]
}

/// Where the draw stands in a frame's commands.
pub open spec fn draw_position(geometry: GeometryBuffers, uniforms: Seq<UniformWrite>) -> int {
    3 + (if geometry.index_buffer is Some {
        1int
    } else {
        0int
    }) + uniforms.len()
}

/// A frame's uniform writes applied to the store in order; each lands
/// exactly as a lone write does, so an absent name still changes nothing.
pub open spec fn writes_applied(
    store: Seq<(Seq<char>, Option<UniformValue>)>,
    writes: Seq<UniformWrite>,
) -> Seq<(Seq<char>, Option<UniformValue>)>
    decreases writes.len(),
{
    if writes.len() == 0 {
        store
    } else {
        write_once(
            writes_applied(store, writes.drop_last()),
            writes.last().name@,
            writes.last().value,
        )
    }
}

/// A frame whose uniform writes all name absent uniforms leaves the
/// program's uniform state exactly as it was: no write raises an error and
/// none touches another uniform's value.
pub proof fn lemma_absent_names_leave_store(
    store: Seq<(Seq<char>, Option<UniformValue>)>,
    writes: Seq<UniformWrite>,
)
    requires
        forall|i: int| 0 <= i < writes.len() ==> !has_name(store, (#[trigger] writes[i]).name@),
    ensures
        writes_applied(store, writes) == store,
    decreases writes.len(),
{
    if writes.len() > 0 {
        assert(forall|i: int|
            0 <= i < writes.drop_last().len() ==> (#[trigger] writes.drop_last()[i])
                == writes[i]);
        lemma_absent_names_leave_store(store, writes.drop_last());
        lemma_absent_name_write_is_noop(store, writes.last().name@, writes.last().value);
        assert(writes.last() == writes[writes.len() - 1]);
    }
}

/// In every frame the draw is provably preceded by the correct bind
/// sequence: the clear opens the frame, the program and vertex-array binds
/// come next, an indexed draw's index buffer is bound after them, and the
/// draw stands after all of these, followed only by the presentation.
pub proof fn lemma_frame_binds_before_draw(
    program: u32,
    geometry: GeometryBuffers,
    uniforms: Seq<UniformWrite>,
)
    ensures
        ({
            let s = frame_commands(program, geometry, uniforms);
            let d = draw_position(geometry, uniforms);
            &&& s.len() == d + 2
            &&& s[0] == RenderCommand::ClearColorBuffer
            &&& s[1] == (RenderCommand::UseProgram { program })
            &&& s[2] == (RenderCommand::BindVertexArray { array: geometry.vertex_array })
            &&& (geometry.index_buffer matches Some(ib) ==> s[3] == (
            RenderCommand::BindElementBuffer { buffer: ib.buffer }))
            &&& 2 < d
            &&& s[d] == draw_command(geometry)
            &&& s[d + 1] == RenderCommand::SwapBuffers
        }),
{
}

/// A batch's viewport commands are viewport updates and nothing else.
pub proof fn lemma_viewport_commands_only_set_viewport(events: Seq<WindowEvent>)
    ensures
        forall|k: int|
            0 <= k < viewport_commands(events).len() ==> (#[trigger] viewport_commands(
                events,
            )[k]) is SetViewport,
    decreases events.len(),
{
    if events.len() > 0 {
        lemma_viewport_commands_only_set_viewport(events.drop_last());
        let rec = viewport_commands(events.drop_last());
        let whole = viewport_commands(events);
        assert forall|k: int| 0 <= k < whole.len() implies (#[trigger] whole[k])
            is SetViewport by {
            if k < rec.len() {
                assert(whole[k] == rec[k]);
            }
        }
    }
}

/// No command of a frame moves the viewport: an iteration's viewport
/// updates all come from its events.
pub proof fn lemma_frame_commands_no_set_viewport(
    program: u32,
    geometry: GeometryBuffers,
    uniforms: Seq<UniformWrite>,
)
    ensures
        forall|k: int|
            0 <= k < frame_commands(program, geometry, uniforms).len() ==> !((
            #[trigger] frame_commands(program, geometry, uniforms)[k]) is SetViewport),
{
    let s = frame_commands(program, geometry, uniforms);
    let head = seq![RenderCommand::ClearColorBuffer] + bind_commands(program, geometry);
    let uc = uniform_commands(uniforms);
    let tail = seq![draw_command(geometry), RenderCommand::SwapBuffers];
    assert forall|k: int| 0 <= k < s.len() implies !((#[trigger] s[k]) is SetViewport) by {
        if k < head.len() {
            assert(s[k] == head[k]);
        } else if k < head.len() + uc.len() {
            let j: int = k - head.len();
            assert(s[k] == uc[j]);
            assert(uc[j] == (RenderCommand::SetUniform {
                name: uniforms[j].name,
                value: uniforms[j].value,
            }));
        } else {
            assert(s[k] == tail[k - head.len() - uc.len()]);
        }
    }
}

/// An iteration applies its resize effects strictly before its frame's
/// draw: in the iteration's command list, every viewport update stands
/// before the draw call.
pub proof fn lemma_viewport_updates_precede_draw(
    program: u32,
    geometry: GeometryBuffers,
    uniforms: Seq<UniformWrite>,
    events: Seq<WindowEvent>,
)
    ensures
        ({
            let s = viewport_commands(events) + frame_commands(program, geometry, uniforms);
            let d = viewport_commands(events).len() + draw_position(geometry, uniforms);
            &&& 0 <= d < s.len()
            &&& s[d] == draw_command(geometry)
            &&& forall|k: int| 0 <= k < s.len() && (#[trigger] s[k]) is SetViewport ==> k < d
        }),
{
    lemma_frame_binds_before_draw(program, geometry, uniforms);
    lemma_frame_commands_no_set_viewport(program, geometry, uniforms);
    let prefix = viewport_commands(events);
    let frame = frame_commands(program, geometry, uniforms);
    let s = prefix + frame;
    let d = prefix.len() + draw_position(geometry, uniforms);
    assert(s[d] == frame[draw_position(geometry, uniforms)]);
    assert forall|k: int| 0 <= k < s.len() && (#[trigger] s[k]) is SetViewport implies k < d by {
        if k >= prefix.len() {
            assert(s[k] == frame[k - prefix.len()]);
        }
    }
}

/// Drives the frame cadence over one program and one set of geometry,
/// which it owns for its lifetime.
#[derive(Clone, PartialEq, Eq, Debug)]
pub struct RenderLoop {
    pub shader: Shader,
    pub geometry: GeometryBuffers,
    pub viewport: Viewport,
    pub closing: bool,
}

impl RenderLoop {
    /// A loop over the given program and geometry, with the framebuffer's
    /// starting size as its viewport and no close requested yet.
    pub fn new(shader: Shader, geometry: GeometryBuffers, width: i32, height: i32) -> (l:
        RenderLoop)
        ensures
            l.shader == shader,
            l.geometry == geometry,
            l.viewport == (Viewport { x: 0, y: 0, width, height }),
            !l.closing,
    {
        RenderLoop { shader, geometry, viewport: Viewport { x: 0, y: 0, width, height }, closing: false }
    }

    /// The loop condition: another iteration runs only while no close was
    /// requested.
    pub fn should_run(&self) -> (r: bool)
        ensures
            r == !self.closing,
    {
        !self.closing
    }

    /// Drains one batch of events, in order. Each resize moves the
    /// viewport to `(0, 0, w, h)` and asks the driver to follow; an escape
    /// press marks the loop closing; every other event changes nothing.
    pub fn process_events(&mut self, events: &Vec<WindowEvent>) -> (cmds: Vec<RenderCommand>)
        ensures
            final(self).shader == old(self).shader,
            final(self).geometry == old(self).geometry,
            final(self).viewport == viewport_after(old(self).viewport, events@),
            final(self).closing == closing_after(old(self).closing, events@),
            cmds@ == viewport_commands(events@),
    {
        let mut cmds: Vec<RenderCommand> = Vec::new();
        proof {
            assert(events@.take(0) =~= Seq::<WindowEvent>::empty());
            assert(cmds@ =~= viewport_commands(events@.take(0)));
        }
        let n: usize = events.len();
        let mut i: usize = 0;
        while i < n
            invariant
                n == events@.len(),
                0 <= i <= n,
                self.shader == old(self).shader,
                self.geometry == old(self).geometry,
                self.viewport == viewport_after(old(self).viewport, events@.take(i as int)),
                self.closing == closing_after(old(self).closing, events@.take(i as int)),
                cmds@ == viewport_commands(events@.take(i as int)),
            decreases n - i,
        {
            let e: WindowEvent = events[i];
            match e {
                WindowEvent::FramebufferResize { width, height } => {
                    self.viewport = Viewport { x: 0, y: 0, width, height };
                    cmds.push(RenderCommand::SetViewport { viewport: self.viewport });
                },
                WindowEvent::Key { .. } => {
                    if is_close_request_event(&e) {
                        self.closing = true;
                    }
                },
                WindowEvent::Other => {},
            }
            proof {
                lemma_requests_close_step(events@, i as int);
                assert(events@.take(i + 1).drop_last() =~= events@.take(i as int));
                assert(events@.take(i + 1).last() == events@[i as int]);
                if !(events@[i as int] is FramebufferResize) {
                    assert(cmds@ =~= viewport_commands(events@.take(i + 1)));
                } else {
                    assert(cmds@ =~= viewport_commands(events@.take(i + 1)));
                }
            }
            i += 1;
        }
        proof {
            assert(events@.take(n as int) =~= events@);
        }
        cmds
    }

    /// Renders one frame: clear, bind, write the given uniform values,
    /// draw, present. The draw only reads the geometry — the buffers stand
    /// exactly as before — and each uniform write lands on its name alone,
    /// an absent name changing nothing.
    pub fn render_frame(&mut self, uniforms: &Vec<UniformWrite>) -> (cmds: Vec<RenderCommand>)
        ensures
            final(self).geometry == old(self).geometry,
            final(self).viewport == old(self).viewport,
            final(self).closing == old(self).closing,
            final(self).shader.id == old(self).shader.id,
            final(self).shader.uniforms@ == writes_applied(
                old(self).shader.uniforms@,
                uniforms@,
            ),
            cmds@ == frame_commands(old(self).shader.id, old(self).geometry, uniforms@),
    {
        let ghost prefix: Seq<RenderCommand> = seq![RenderCommand::ClearColorBuffer]
            + bind_commands(self.shader.id, self.geometry);
        let mut cmds: Vec<RenderCommand> = Vec::new();
        cmds.push(RenderCommand::ClearColorBuffer);
        cmds.push(self.shader.use_program());
        cmds.push(RenderCommand::BindVertexArray { array: self.geometry.vertex_array });
        match &self.geometry.index_buffer {
            Some(ib) => {
                cmds.push(RenderCommand::BindElementBuffer { buffer: ib.buffer });
            },
            None => {},
        }
        proof {
            assert(cmds@ =~= prefix + uniform_commands(uniforms@.take(0)));
            assert(uniforms@.take(0) =~= Seq::<UniformWrite>::empty());
        }
        let n: usize = uniforms.len();
        let mut i: usize = 0;
        while i < n
            invariant
                n == uniforms@.len(),
                0 <= i <= n,
                self.geometry == old(self).geometry,
                self.viewport == old(self).viewport,
                self.closing == old(self).closing,
                self.shader.id == old(self).shader.id,
                self.shader.uniforms@ == writes_applied(
                    old(self).shader.uniforms@,
                    uniforms@.take(i as int),
                ),
                prefix == seq![RenderCommand::ClearColorBuffer] + bind_commands(
                    old(self).shader.id,
                    old(self).geometry,
                ),
                cmds@ == prefix + uniform_commands(uniforms@.take(i as int)),
            decreases n - i,
        {
            let w: &UniformWrite = &uniforms[i];
            self.shader.uniforms.set(w.name.as_str(), w.value);
            cmds.push(RenderCommand::SetUniform { name: w.name.clone(), value: w.value });
            proof {
                assert(uniforms@.take(i + 1).drop_last() =~= uniforms@.take(i as int));
                assert(uniforms@.take(i + 1).last() == uniforms@[i as int]);
                assert(uniform_commands(uniforms@.take(i + 1)) =~= uniform_commands(
                    uniforms@.take(i as int),
                ).push(
                    RenderCommand::SetUniform {
                        name: uniforms@[i as int].name,
                        value: uniforms@[i as int].value,
                    },
                ));
            }
            i += 1;
        }
        proof {
            assert(uniforms@.take(n as int) =~= uniforms@);
        }
        match &self.geometry.index_buffer {
            Some(ib) => {
                cmds.push(RenderCommand::DrawIndexedTriangles { index_count: ib.indices.len() });
            },
            None => {
                cmds.push(RenderCommand::DrawTriangles { vertex_count: self.geometry.vertex_count });
            },
        }
        cmds.push(RenderCommand::SwapBuffers);
        proof {
            assert(cmds@ =~= frame_commands(old(self).shader.id, old(self).geometry, uniforms@));
        }
        cmds
    }

    /// One loop iteration: drain the pending events, then render the
    /// frame with the given uniform values. The events' effects precede
    /// the frame's commands, so a resize reaches the viewport before the
    /// same frame's draw; a close request leaves the loop closing, and no
    /// further iteration runs.
    pub fn iteration(&mut self, events: &Vec<WindowEvent>, uniforms: &Vec<UniformWrite>) -> (cmds:
        Vec<RenderCommand>)
        requires
            !old(self).closing,
        ensures
            final(self).geometry == old(self).geometry,
            final(self).shader.id == old(self).shader.id,
            final(self).shader.uniforms@ == writes_applied(
                old(self).shader.uniforms@,
                uniforms@,
            ),
            final(self).viewport == viewport_after(old(self).viewport, events@),
            final(self).closing == requests_close(events@),
            cmds@ == viewport_commands(events@) + frame_commands(
                old(self).shader.id,
                old(self).geometry,
                uniforms@,
            ),
    {
        let mut cmds = self.process_events(events);
        let mut frame = self.render_frame(uniforms);
        cmds.append(&mut frame);
        cmds
    }
}

} // verus!
