//! Construction of one linked program from two shader sources.
//!
//! The protocol has a fixed order: compile the vertex stage, compile the
//! fragment stage, then — only if both compiled cleanly — create a program
//! object, attach both stages and link, and finally delete the transient
//! stage objects, which never outlive construction. Each step's driver
//! report is checked immediately, so a diagnostic reflects exactly the
//! operation that produced it. A compile or link failure abandons
//! construction: the stage objects (and an unlinked program object, if one
//! was created) are still deleted, and the recorded diagnostics are
//! returned instead of a program.
//!
//! The builder is the decision side of that protocol. The unverified shell
//! performs the driver call `next_action` asks for and reports the outcome
//! back; the builder's contracts pin the phase it moves to and the
//! diagnostics it records.

use vstd::prelude::*;

use crate::diagnostics::{
    diagnose,
    truncated,
    BuildStep,
    Diagnostic,
    ShaderStage,
    INFO_LOG_BOUND,
};
use crate::shader::Shader;
use crate::uniforms::UniformStore;

verus! {

/// Raw text for one shader stage. It is owned by construction alone: the
/// builder holds both sources while the stages compile and drops them when
/// construction is decided.
#[derive(Clone, PartialEq, Eq, Debug)]
pub struct ShaderSource {
    pub stage: ShaderStage,
    pub text: String,
}

/// Where the construction of one program stands.
#[derive(Clone, Copy, PartialEq, Eq, Debug)]
pub enum BuildPhase {
    /// The vertex stage is next to compile.
    CompileVertex,
    /// The fragment stage is next to compile; the vertex stage's handle is
    /// kept for linking and deletion.
    CompileFragment { vertex: u32 },
    /// Both stages compiled cleanly; a fresh program object is to be
    /// linked from them.
    LinkStages { vertex: u32, fragment: u32 },
    /// The outcome is decided; the transient stage objects are to be
    /// deleted. `program_object` is the program object, if one was
    /// created; `linked` says whether it linked and is to be kept.
    ReleaseStages { vertex: u32, fragment: u32, program_object: Option<u32>, linked: bool },
    /// The program linked and the stage objects are gone.
    Complete { program: u32 },
    /// A compile or the link failed; construction was abandoned.
    Aborted,
}

/// The next driver operation the builder asks for.
#[derive(Clone, Copy, PartialEq, Eq, Debug)]
pub enum BuildAction {
    /// Create a shader object of the stage, hand it its source, compile,
    /// and report the handle, the compile status and the info log.
    CompileStage { stage: ShaderStage },
    /// Create a program object, attach both stages, link, and report the
    /// program handle, the link status and the info log.
    LinkProgram { vertex: u32, fragment: u32 },
    /// Delete both transient stage objects, and the abandoned program
    /// object if construction failed after creating one.
    DeleteStages { vertex: u32, fragment: u32, abandoned_program: Option<u32> },
    /// Construction is decided; call `finish`.
    Finish,
}

/// The driver operation each phase asks for.
pub open spec fn phase_action(phase: BuildPhase) -> BuildAction {
    match phase {
        BuildPhase::CompileVertex => BuildAction::CompileStage { stage: ShaderStage::Vertex },
        BuildPhase::CompileFragment { .. } => BuildAction::CompileStage {
            stage: ShaderStage::Fragment,
        },
        BuildPhase::LinkStages { vertex, fragment } => BuildAction::LinkProgram {
            vertex,
            fragment,
        },
        BuildPhase::ReleaseStages { vertex, fragment, program_object, linked } => (
        BuildAction::DeleteStages {
            vertex,
            fragment,
            abandoned_program: if linked {
                None
            } else {
                program_object
            },
        }),
        BuildPhase::Complete { .. } => BuildAction::Finish,
        BuildPhase::Aborted => BuildAction::Finish,
    }
}

/// The diagnostics grew by exactly one entry: the given step's failure,
/// its log truncated at the fixed bound; the earlier entries stand.
pub open spec fn appended_failure(
    before: Seq<Diagnostic>,
    after: Seq<Diagnostic>,
    step: BuildStep,
    log: Seq<u8>,
) -> bool {
    &&& after.len() == before.len() + 1
    &&& after.take(before.len() as int) == before
    &&& after.last().step == step
    &&& after.last().log@ == truncated(log)
}

/// Drives the construction protocol for one program.
#[derive(Clone, PartialEq, Eq, Debug)]
pub struct ShaderBuilder {
    pub phase: BuildPhase,
    pub diagnostics: Vec<Diagnostic>,
    pub vertex_source: ShaderSource,
    pub fragment_source: ShaderSource,
}

impl ShaderBuilder {
    /// The builder's invariant: every kept log is within the bound, and
    /// the diagnostics agree with the phase — construction proceeds to a
    /// link or completes only while none were recorded, and is abandoned
    /// only once at least one was.
    pub open spec fn wf(self) -> bool {
        &&& forall|i: int|
            0 <= i < self.diagnostics@.len() ==> (#[trigger] self.diagnostics@[i]).log@.len()
                <= INFO_LOG_BOUND
        &&& match self.phase {
            BuildPhase::CompileVertex => self.diagnostics@.len() == 0,
            BuildPhase::CompileFragment { .. } => self.diagnostics@.len() <= 1,
            BuildPhase::LinkStages { .. } => self.diagnostics@.len() == 0,
            BuildPhase::ReleaseStages { program_object, linked, .. } => {
                &&& (linked ==> program_object is Some)
                &&& (linked <==> self.diagnostics@.len() == 0)
            },
            BuildPhase::Complete { .. } => self.diagnostics@.len() == 0,
            BuildPhase::Aborted => self.diagnostics@.len() >= 1,
        }
    }

    /// A fresh builder over the two stage sources: the vertex stage is
    /// first, nothing is recorded.
    pub fn new(vertex_text: String, fragment_text: String) -> (b: ShaderBuilder)
        ensures
            b.phase == BuildPhase::CompileVertex,
            b.diagnostics@ == Seq::<Diagnostic>::empty(),
            b.vertex_source == (ShaderSource { stage: ShaderStage::Vertex, text: vertex_text }),
            b.fragment_source == (ShaderSource {
                stage: ShaderStage::Fragment,
                text: fragment_text,
            }),
            b.wf(),
    {
        let b = ShaderBuilder {
            phase: BuildPhase::CompileVertex,
            diagnostics: Vec::new(),
            vertex_source: ShaderSource { stage: ShaderStage::Vertex, text: vertex_text },
            fragment_source: ShaderSource { stage: ShaderStage::Fragment, text: fragment_text },
        };
        proof {
            assert(b.diagnostics@ =~= Seq::<Diagnostic>::empty());
        }
        b
    }

    /// The source text a stage's compile submits to the driver.
    pub fn source_text(&self, stage: ShaderStage) -> (r: &str)
        ensures
            stage == ShaderStage::Vertex ==> r@ == self.vertex_source.text@,
            stage == ShaderStage::Fragment ==> r@ == self.fragment_source.text@,
    {
        match stage {
            ShaderStage::Vertex => self.vertex_source.text.as_str(),
            ShaderStage::Fragment => self.fragment_source.text.as_str(),
        }
    }

    /// The driver operation to perform next.
    pub fn next_action(&self) -> (a: BuildAction)
        ensures
            a == phase_action(self.phase),
    {
        match self.phase {
            BuildPhase::CompileVertex => BuildAction::CompileStage { stage: ShaderStage::Vertex },
            BuildPhase::CompileFragment { .. } => BuildAction::CompileStage {
                stage: ShaderStage::Fragment,
            },
            BuildPhase::LinkStages { vertex, fragment } => BuildAction::LinkProgram {
                vertex,
                fragment,
            },
            BuildPhase::ReleaseStages { vertex, fragment, program_object, linked } => (
            BuildAction::DeleteStages {
                vertex,
                fragment,
                abandoned_program: if linked {
                    None
                } else {
                    program_object
                },
            }),
            BuildPhase::Complete { .. } => BuildAction::Finish,
            BuildPhase::Aborted => BuildAction::Finish,
        }
    }

    /// Takes the vertex stage's compile report: the handle is kept either
    /// way, a failure is recorded, and the fragment stage is next.
    pub fn vertex_compiled(&mut self, handle: u32, success: bool, log: &[u8])
        requires
            old(self).phase == BuildPhase::CompileVertex,
            old(self).wf(),
        ensures
            final(self).wf(),
            final(self).vertex_source == old(self).vertex_source,
            final(self).fragment_source == old(self).fragment_source,
            final(self).phase == (BuildPhase::CompileFragment { vertex: handle }),
            success ==> final(self).diagnostics@ == old(self).diagnostics@,
            !success ==> appended_failure(
                old(self).diagnostics@,
                final(self).diagnostics@,
                BuildStep::Compile(ShaderStage::Vertex),
                log@,
            ),
    {
        match diagnose(BuildStep::Compile(ShaderStage::Vertex), success, log) {
            Some(d) => {
                self.diagnostics.push(d);
                proof {
                    assert(self.diagnostics@.take(old(self).diagnostics@.len() as int)
                        =~= old(self).diagnostics@);
                }
            },
            None => {},
        }
        self.phase = BuildPhase::CompileFragment { vertex: handle };
    }

    /// Takes the fragment stage's compile report. Construction goes on to
    /// the link only if both stages compiled cleanly; otherwise the stage
    /// objects are to be deleted and construction is abandoned.
    pub fn fragment_compiled(&mut self, handle: u32, success: bool, log: &[u8])
        requires
            old(self).phase matches BuildPhase::CompileFragment { .. },
            old(self).wf(),
        ensures
            final(self).wf(),
            final(self).vertex_source == old(self).vertex_source,
            final(self).fragment_source == old(self).fragment_source,
            old(self).phase matches BuildPhase::CompileFragment { vertex } ==> final(self).phase
                == (if success && old(self).diagnostics@.len() == 0 {
                BuildPhase::LinkStages { vertex, fragment: handle }
            } else {
                BuildPhase::ReleaseStages {
                    vertex,
                    fragment: handle,
                    program_object: None,
                    linked: false,
                }
            }),
            success ==> final(self).diagnostics@ == old(self).diagnostics@,
            !success ==> appended_failure(
                old(self).diagnostics@,
                final(self).diagnostics@,
                BuildStep::Compile(ShaderStage::Fragment),
                log@,
            ),
    {
        let vertex: u32 = match self.phase {
            BuildPhase::CompileFragment { vertex } => vertex,
            _ => 0,
        };
        match diagnose(BuildStep::Compile(ShaderStage::Fragment), success, log) {
            Some(d) => {
                self.diagnostics.push(d);
                proof {
                    assert(self.diagnostics@.take(old(self).diagnostics@.len() as int)
                        =~= old(self).diagnostics@);
                }
            },
            None => {},
        }
        if self.diagnostics.len() == 0 {
            self.phase = BuildPhase::LinkStages { vertex, fragment: handle };
        } else {
            self.phase = BuildPhase::ReleaseStages {
                vertex,
                fragment: handle,
                program_object: None,
                linked: false,
            };
        }
    }

    /// Takes the link report for the program object the shell created and
    /// linked. On success the program is kept; on failure it is abandoned
    /// and will be deleted with the stages.
    pub fn program_linked(&mut self, program: u32, success: bool, log: &[u8])
        requires
            old(self).phase matches BuildPhase::LinkStages { .. },
            old(self).wf(),
        ensures
            final(self).wf(),
            final(self).vertex_source == old(self).vertex_source,
            final(self).fragment_source == old(self).fragment_source,
            old(self).phase matches BuildPhase::LinkStages { vertex, fragment } ==> final(self).phase
                == (BuildPhase::ReleaseStages {
                vertex,
                fragment,
                program_object: Some(program),
                linked: success,
            }),
            success ==> final(self).diagnostics@ == old(self).diagnostics@,
            !success ==> appended_failure(
                old(self).diagnostics@,
                final(self).diagnostics@,
                BuildStep::Link,
                log@,
            ),
    {
        let (vertex, fragment): (u32, u32) = match self.phase {
            BuildPhase::LinkStages { vertex, fragment } => (vertex, fragment),
            _ => (0, 0),
        };
        match diagnose(BuildStep::Link, success, log) {
            Some(d) => {
                self.diagnostics.push(d);
                proof {
                    assert(self.diagnostics@.take(old(self).diagnostics@.len() as int)
                        =~= old(self).diagnostics@);
                }
            },
            None => {},
        }
        self.phase = BuildPhase::ReleaseStages {
            vertex,
            fragment,
            program_object: Some(program),
            linked: success,
        };
    }

    /// Takes the shell's word that the transient objects are deleted:
    /// construction completes with the linked program, or stands abandoned.
    pub fn stages_released(&mut self)
        requires
            old(self).phase matches BuildPhase::ReleaseStages { .. },
            old(self).wf(),
        ensures
            final(self).wf(),
            final(self).vertex_source == old(self).vertex_source,
            final(self).fragment_source == old(self).fragment_source,
            final(self).diagnostics@ == old(self).diagnostics@,
            old(self).phase matches BuildPhase::ReleaseStages { program_object, linked, .. } ==> final(self).phase
                == (if linked {
                BuildPhase::Complete { program: program_object->0 }
            } else {
                BuildPhase::Aborted
            }),
    {
        let next: BuildPhase = match self.phase {
            BuildPhase::ReleaseStages { program_object: Some(p), linked: true, .. } => (
            BuildPhase::Complete { program: p }),
            _ => BuildPhase::Aborted,
        };
        self.phase = next;
    }

    /// The decided outcome: the linked program wrapped as a `Shader` with
    /// no uniforms declared yet, or the diagnostics of the failed steps,
    /// in protocol order — and then never an empty list.
    pub fn finish(self) -> (r: Result<Shader, Vec<Diagnostic>>)
        requires
            self.phase matches BuildPhase::Complete { .. } || self.phase is Aborted,
            self.wf(),
        ensures
            r is Ok <==> self.phase matches BuildPhase::Complete { .. },
            self.phase matches BuildPhase::Complete { program } ==> (r matches Ok(s) && s.id
                == program && s.uniforms@ == Seq::<
                (Seq<char>, Option<crate::uniforms::UniformValue>),
            >::empty()),
            self.phase is Aborted ==> (r matches Err(d) && d@ == self.diagnostics@ && d@.len()
                >= 1),
    {
        match self.phase {
            BuildPhase::Complete { program } => Ok(
                Shader { id: program, uniforms: UniformStore::new() },
            ),
            _ => Err(self.diagnostics),
        }
    }
}

} // verus!
