//! Driver diagnostics for shader compilation and program linking.
//!
//! After each compile and after the link, the driver reports a status and
//! an info log. A successful step yields no diagnostic. A failed step
//! yields one tagged with the step that produced it, its log kept up to a
//! fixed bound and truncated beyond it.

use vstd::prelude::*;

verus! {

/// One shader unit of the pipeline.
#[derive(Clone, Copy, PartialEq, Eq, Structural, Debug)]
pub enum ShaderStage {
    Vertex,
    Fragment,
}

/// The build operation a diagnostic belongs to.
#[derive(Clone, Copy, PartialEq, Eq, Structural, Debug)]
pub enum BuildStep {
    /// Compilation of one stage.
    Compile(ShaderStage),
    /// Linking of the program from its compiled stages.
    Link,
}

/// The most driver log bytes a diagnostic keeps; a longer log is cut here.
pub const INFO_LOG_BOUND: usize = 1023;

/// A driver log cut at the fixed bound.
pub open spec fn truncated(log: Seq<u8>) -> Seq<u8> {
    if log.len() <= INFO_LOG_BOUND {
        log
    } else {
        log.take(INFO_LOG_BOUND as int)
    }
}

/// What a failed build step reports: the step it came from and the
/// driver's log, truncated at the fixed bound.
#[derive(Clone, PartialEq, Eq, Debug)]
pub struct Diagnostic {
    pub step: BuildStep,
    pub log: Vec<u8>,
}

impl Diagnostic {
    /// The category under which the diagnostic is reported: compile
    /// failures and link failures are told apart.
    pub fn category(&self) -> (r: &str)
        ensures
            self.step is Link ==> r@ == "PROGRAM_LINKING_ERROR"@,
            self.step is Compile ==> r@ == "SHADER_COMPILATION_ERROR"@,
    {
        match self.step {
            BuildStep::Link => "PROGRAM_LINKING_ERROR",
            BuildStep::Compile(_) => "SHADER_COMPILATION_ERROR",
        }
    }

    /// The name of the step the diagnostic came from.
    pub fn subtype(&self) -> (r: &str)
        ensures
            self.step == BuildStep::Compile(ShaderStage::Vertex) ==> r@ == "VERTEX"@,
            self.step == BuildStep::Compile(ShaderStage::Fragment) ==> r@ == "FRAGMENT"@,
            self.step == BuildStep::Link ==> r@ == "PROGRAM"@,
    {
        match self.step {
            BuildStep::Compile(ShaderStage::Vertex) => "VERTEX",
            BuildStep::Compile(ShaderStage::Fragment) => "FRAGMENT",
            BuildStep::Link => "PROGRAM",
        }
    }
}

/// Copies a driver log up to the fixed bound.
pub fn truncate_log(log: &[u8]) -> (r: Vec<u8>)
    ensures
        r@ == truncated(log@),
{
    let n: usize = if log.len() <= INFO_LOG_BOUND {
        log.len()
    } else {
        INFO_LOG_BOUND
    };
    let mut out: Vec<u8> = Vec::new();
    let mut i: usize = 0;
    while i < n
        invariant
            0 <= i <= n,
            n <= log@.len(),
            n == (if log@.len() <= INFO_LOG_BOUND {
                log@.len()
            } else {
                INFO_LOG_BOUND as nat
            }),
            out@.len() == i,
            forall|j: int| 0 <= j < i ==> out@[j] == log@[j],
        decreases n - i,
    {
        out.push(log[i]);
        i += 1;
    }
    proof {
        assert(out@ =~= truncated(log@));
    }
    out
}

/// Checks one build step's driver report: success yields no diagnostic;
/// failure yields exactly one, tagged with the step and carrying the log
/// truncated at the fixed bound.
pub fn diagnose(step: BuildStep, success: bool, log: &[u8]) -> (r: Option<Diagnostic>)
    ensures
        success <==> r is None,
        r matches Some(d) ==> d.step == step && d.log@ == truncated(log@),
{
    if success {
        None
    } else {
        Some(Diagnostic { step, log: truncate_log(log) })
    }
}

} // verus!
