//! Pipeline construction and per-frame activation.
//!
//! Linking consumes nothing: the caller keeps its stages and may release them
//! independently afterwards, because a successful link detaches every stage
//! from the program. The driver performs the attach/link/detach sequence; the
//! core receives the link report as plain values and decides the outcome.

use vstd::prelude::*;

use crate::error::LinkError;
use crate::handle::HandleLedger;
use crate::shader::{ShaderKind, ShaderStage};
use crate::state::{bind_program_step, RenderState};

verus! {

/// How many stages of kind `k` the sequence holds.
pub open spec fn count_kind(stages: Seq<ShaderStage>, k: ShaderKind) -> int
    decreases stages.len(),
{
    if stages.len() == 0 {
        0
    } else {
        count_kind(stages.drop_last(), k) + (if stages.last().kind_spec() == k {
            1int
        } else {
            0int
        })
    }
}

/// The stage mix this core's draw call needs: exactly one vertex stage and
/// exactly one fragment stage.
pub open spec fn valid_stage_mix(stages: Seq<ShaderStage>) -> bool {
    count_kind(stages, ShaderKind::Vertex) == 1 && count_kind(stages, ShaderKind::Fragment) == 1
}

/// Checks that `stages` provides exactly one stage of each required kind.
pub fn has_required_stages(stages: &Vec<ShaderStage>) -> (r: bool)
    ensures
        r == valid_stage_mix(stages@),
{
    let mut vertex_count: usize = 0;
    let mut fragment_count: usize = 0;
    let mut i: usize = 0;
    while i < stages.len()
        invariant
            i <= stages@.len(),
            vertex_count <= i,
            fragment_count <= i,
            vertex_count == count_kind(stages@.take(i as int), ShaderKind::Vertex),
            fragment_count == count_kind(stages@.take(i as int), ShaderKind::Fragment),
        decreases stages@.len() - i,
    {
        let ghost prefix = stages@.take(i as int);
        let ghost next = stages@.take(i + 1 as int);
        assert(next.drop_last() =~= prefix);
        assert(next.last() == stages@[i as int]);
        match stages[i].kind() {
            ShaderKind::Vertex => {
                vertex_count += 1;
            },
            ShaderKind::Fragment => {
                fragment_count += 1;
            },
        }
        i += 1;
    }
    assert(stages@.take(stages@.len() as int) =~= stages@);
    vertex_count == 1 && fragment_count == 1
}

/// What the driver reported after one link request: the freshly created
/// program object's handle, the link-status flag, and the log text.
pub struct LinkReport {
    pub handle: u32,
    pub success: bool,
    pub log: String,
}

/// An owned, successfully linked program, executable by a draw call.
///
/// A value of this type only exists for a link the driver accepted; its
/// handle stays valid until `release` hands it back.
pub struct Pipeline {
    id: u32,
}

impl Pipeline {
    /// The driver handle this pipeline owns.
    pub closed spec fn id_spec(&self) -> u32 {
        self.id
    }

    /// A pipeline always names a real driver object.
    pub open spec fn wf(&self) -> bool {
        self.id_spec() != 0
    }

    /// Everything `bind` asks of a pipeline.
    pub open spec fn bind_ready(&self) -> bool {
        self.wf()
    }

    /// Decides the outcome of linking `stages` into a program, from the
    /// driver's report on that link. `ledger` is the ledger of the name space
    /// that shader and program objects share, so the fresh program name is
    /// distinct from every live stage name.
    ///
    /// On success the fresh program handle joins the ledger and the pipeline
    /// owns it; the stages stay alive and may be released independently. On
    /// failure the program handle is released again, so the ledger is left
    /// exactly as it was (no leak), and the verbatim log comes back as the
    /// error.
    pub fn link(
        stages: &Vec<ShaderStage>,
        report: LinkReport,
        ledger: &mut HandleLedger,
    ) -> (r: Result<Pipeline, LinkError>)
        requires
            valid_stage_mix(stages@),
            forall|i: int|
                0 <= i < stages@.len() ==> (#[trigger] stages@[i]).wf() && old(ledger).is_live(
                    stages@[i].id_spec(),
                ),
            old(ledger).wf(),
            report.handle != 0,
            !old(ledger).is_live(report.handle),
        ensures
            final(ledger).wf(),
            report.success ==> (r matches Ok(p) && p.id_spec() == report.handle && p.wf()
                && p.bind_ready() && final(ledger).is_live(report.handle)
                && final(ledger).live() == old(ledger).live().push(report.handle)
                && forall|x: u32| x != report.handle ==> final(ledger).is_live(x) == old(
                ledger,
            ).is_live(x)),
            !report.success ==> (r matches Err(e) && e.log_view() == report.log@
                && final(ledger).live().len() == old(ledger).live().len()
                && forall|x: u32| final(ledger).is_live(x) == old(ledger).is_live(x)),
            forall|i: int|
                0 <= i < stages@.len() ==> final(ledger).is_live(
                    (#[trigger] stages@[i]).id_spec(),
                ),
    {
        ledger.acquire(report.handle);
        if report.success {
            Ok(Pipeline { id: report.handle })
        } else {
            ledger.release(report.handle);
            assert forall|x: u32| ledger.is_live(x) == old(ledger).is_live(x) by {
                if x == report.handle {
                    assert(!old(ledger).is_live(x));
                }
            }
            Err(LinkError::new(report.log))
        }
    }

    /// The raw driver handle, for the collaborator that executes driver calls.
    pub fn id(&self) -> (r: u32)
        ensures
            r == self.id_spec(),
    {
        self.id
    }

    /// Marks this pipeline's program as the active one for subsequent draw
    /// calls. State is not assumed to persist across frames, so the frame
    /// loop re-binds every frame.
    pub fn bind(&self, state: &mut RenderState)
        requires
            self.bind_ready(),
        ensures
            *final(state) == bind_program_step(*old(state), self.id_spec()),
            final(state).active_program == Some(self.id_spec()),
            final(state).active_array == old(state).active_array,
    {
        state.active_program = Some(self.id);
    }

    /// Gives the program's handle back for deletion. Consuming the pipeline
    /// makes a second release of the same handle impossible.
    pub fn release(self, ledger: &mut HandleLedger)
        requires
            old(ledger).wf(),
            old(ledger).is_live(self.id_spec()),
        ensures
            final(ledger).wf(),
            !final(ledger).is_live(self.id_spec()),
            forall|x: u32|
                x != self.id_spec() ==> final(ledger).is_live(x) == old(ledger).is_live(x),
            final(ledger).live().len() == old(ledger).live().len() - 1,
    {
        ledger.release(self.id);
    }
}

/// A pipeline a successful link handed out is usable by `bind` as it stands:
/// the link postcondition (a live, nonzero program handle) implies the bind
/// precondition.
pub proof fn lemma_link_success_bindable(p: Pipeline, ledger: HandleLedger)
    requires
        p.wf(),
        ledger.is_live(p.id_spec()),
    ensures
        p.bind_ready(),
{
}

} // verus!
