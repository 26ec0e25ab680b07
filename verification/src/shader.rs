//! Shader-stage construction.
//!
//! The driver itself compiles the source; the core receives the driver's
//! report (the fresh stage handle, the compile-status flag and the diagnostic
//! log) as plain values and decides the outcome: a stage that failed to
//! compile is never constructed, and its handle does not stay alive.

use vstd::prelude::*;

use crate::error::CompileError;
use crate::handle::HandleLedger;

verus! {

/// The two programmable stage kinds this core links into a pipeline.
#[derive(Clone, Copy, PartialEq, Eq, Structural, Debug)]
pub enum ShaderKind {
    Vertex,
    Fragment,
}

/// What the driver reported after one stage-compilation request: the freshly
/// created stage object's handle, the compile-status flag, and the log text.
pub struct CompileReport {
    pub handle: u32,
    pub success: bool,
    pub log: String,
}

/// An owned, successfully compiled shader stage.
///
/// A value of this type only exists for a compilation the driver accepted;
/// its handle stays valid until `release` hands it back.
pub struct ShaderStage {
    id: u32,
    kind: ShaderKind,
}

impl ShaderStage {
    /// The driver handle this stage owns.
    pub closed spec fn id_spec(&self) -> u32 {
        self.id
    }

    /// Which pipeline phase this stage feeds.
    pub closed spec fn kind_spec(&self) -> ShaderKind {
        self.kind
    }

    /// A stage always names a real driver object.
    pub open spec fn wf(&self) -> bool {
        self.id_spec() != 0
    }

    /// Decides the outcome of compiling `source` as a stage of kind `kind`,
    /// from the driver's report on that source. `ledger` is the ledger of the
    /// name space that shader and program objects share.
    ///
    /// On success the fresh handle joins the ledger and the stage owns it; on
    /// failure the handle is released again, so the ledger is left exactly as
    /// it was (no leak), and the verbatim log comes back as the error.
    pub fn compile(
        source: &str,
        kind: ShaderKind,
        report: CompileReport,
        ledger: &mut HandleLedger,
    ) -> (r: Result<ShaderStage, CompileError>)
        requires
            source@.len() > 0,
            old(ledger).wf(),
            report.handle != 0,
            !old(ledger).is_live(report.handle),
        ensures
            final(ledger).wf(),
            report.success ==> (r matches Ok(s) && s.id_spec() == report.handle
                && s.kind_spec() == kind && s.wf() && final(ledger).is_live(report.handle)
                && final(ledger).live() == old(ledger).live().push(report.handle)
                && forall|x: u32| x != report.handle ==> final(ledger).is_live(x) == old(
                ledger,
            ).is_live(x)),
            !report.success ==> (r matches Err(e) && e.log_view() == report.log@
                && final(ledger).live().len() == old(ledger).live().len()
                && forall|x: u32| final(ledger).is_live(x) == old(ledger).is_live(x)),
    {
        ledger.acquire(report.handle);
        assert(ledger.is_live(report.handle)) by {
            assert(ledger.live()[ledger.live().len() - 1] == report.handle);
        }
        if report.success {
            Ok(ShaderStage { id: report.handle, kind })
        } else {
            ledger.release(report.handle);
            assert forall|x: u32| ledger.is_live(x) == old(ledger).is_live(x) by {
                if x != report.handle {
                    let pushed = old(ledger).live().push(report.handle);
                    if old(ledger).live().contains(x) {
                        let k = choose|k: int|
                            0 <= k < old(ledger).live().len() && old(ledger).live()[k] == x;
                        assert(pushed[k] == x);
                    }
                    if pushed.contains(x) {
                        let k = choose|k: int| 0 <= k < pushed.len() && pushed[k] == x;
                        if k < old(ledger).live().len() {
                            assert(old(ledger).live()[k] == x);
                        }
                    }
                }
            }
            Err(CompileError::new(report.log))
        }
    }

    /// Convenience constructor for a vertex stage.
    pub fn from_vert_source(
        source: &str,
        report: CompileReport,
        ledger: &mut HandleLedger,
    ) -> (r: Result<ShaderStage, CompileError>)
        requires
            source@.len() > 0,
            old(ledger).wf(),
            report.handle != 0,
            !old(ledger).is_live(report.handle),
        ensures
            final(ledger).wf(),
            report.success ==> (r matches Ok(s) && s.id_spec() == report.handle
                && s.kind_spec() == ShaderKind::Vertex && s.wf()
                && final(ledger).is_live(report.handle)
                && final(ledger).live() == old(ledger).live().push(report.handle)
                && forall|x: u32| x != report.handle ==> final(ledger).is_live(x) == old(
                ledger,
            ).is_live(x)),
            !report.success ==> (r matches Err(e) && e.log_view() == report.log@
                && final(ledger).live().len() == old(ledger).live().len()
                && forall|x: u32| final(ledger).is_live(x) == old(ledger).is_live(x)),
    {
        ShaderStage::compile(source, ShaderKind::Vertex, report, ledger)
    }

    /// Convenience constructor for a fragment stage.
    pub fn from_frag_source(
        source: &str,
        report: CompileReport,
        ledger: &mut HandleLedger,
    ) -> (r: Result<ShaderStage, CompileError>)
        requires
            source@.len() > 0,
            old(ledger).wf(),
            report.handle != 0,
            !old(ledger).is_live(report.handle),
        ensures
            final(ledger).wf(),
            report.success ==> (r matches Ok(s) && s.id_spec() == report.handle
                && s.kind_spec() == ShaderKind::Fragment && s.wf()
                && final(ledger).is_live(report.handle)
                && final(ledger).live() == old(ledger).live().push(report.handle)
                && forall|x: u32| x != report.handle ==> final(ledger).is_live(x) == old(
                ledger,
            ).is_live(x)),
            !report.success ==> (r matches Err(e) && e.log_view() == report.log@
                && final(ledger).live().len() == old(ledger).live().len()
                && forall|x: u32| final(ledger).is_live(x) == old(ledger).is_live(x)),
    {
        ShaderStage::compile(source, ShaderKind::Fragment, report, ledger)
    }

    /// The raw driver handle, for the collaborator that executes driver calls.
    pub fn id(&self) -> (r: u32)
        ensures
            r == self.id_spec(),
    {
        self.id
    }

    /// Which pipeline phase this stage feeds.
    pub fn kind(&self) -> (r: ShaderKind)
        ensures
            r == self.kind_spec(),
    {
        self.kind
    }

    /// Gives the stage's handle back for deletion. Consuming the stage makes
    /// a second release of the same handle impossible.
    pub fn release(self, ledger: &mut HandleLedger)
        requires
            old(ledger).wf(),
            old(ledger).is_live(self.id_spec()),
        ensures
            final(ledger).wf(),
            !final(ledger).is_live(self.id_spec()),
            forall|x: u32|
                x != self.id_spec() ==> final(ledger).is_live(x) == old(ledger).is_live(x),
            final(ledger).live().len() == old(ledger).live().len() - 1,
    {
        ledger.release(self.id);
    }
}

} // verus!
