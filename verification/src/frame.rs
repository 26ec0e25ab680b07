//! The per-frame orchestration state machine.
//!
//! Each tick the loop consumes the events the windowing collaborator drained
//! and either stops (on a quit or low-memory signal, issuing nothing further)
//! or emits the one command sequence a frame consists of: clear, bind the
//! pipeline, bind the vertex layout, draw every uploaded vertex, present.
//! The collaborator executes the commands; the core only decides them.

use vstd::prelude::*;

use crate::layout::VertexLayoutBinding;
use crate::pipeline::Pipeline;
use crate::state::{bind_array_step, bind_program_step, RenderState};

verus! {

/// An input or window event, reduced to what the core reacts to.
#[derive(Clone, Copy, PartialEq, Eq, Structural, Debug)]
pub enum LoopEvent {
    /// The window system asked the process to quit.
    Quit,
    /// The platform signalled memory pressure; treated like a quit.
    LowMemory,
    /// Anything else; ignored by this core.
    Other,
}

/// The loop is either running frames or stopped for good.
#[derive(Clone, Copy, PartialEq, Eq, Structural, Debug)]
pub enum LoopState {
    Running,
    Stopped,
}

/// The primitive a draw call rasterizes.
#[derive(Clone, Copy, PartialEq, Eq, Structural, Debug)]
pub enum PrimitiveKind {
    /// Each three consecutive vertices form one filled triangle.
    Triangles,
}

/// One step of a frame, for the collaborator that executes driver calls.
#[derive(Clone, Copy, PartialEq, Eq, Structural, Debug)]
pub enum FrameCommand {
    /// Clear the color buffer.
    Clear,
    /// Make this program the active one.
    UsePipeline { program: u32 },
    /// Make this vertex array the source for the draw.
    UseVertexLayout { array: u32 },
    /// Rasterize `vertex_count` vertices as `primitive`.
    Draw { primitive: PrimitiveKind, vertex_count: usize },
    /// Present the finished frame.
    Present,
}

/// One step of the shutdown path, releasing a driver object.
#[derive(Clone, Copy, PartialEq, Eq, Structural, Debug)]
pub enum ReleaseCommand {
    DeleteVertexArray { array: u32 },
    DeleteBuffer { buffer: u32 },
    DeleteProgram { program: u32 },
}

/// Whether one event asks the loop to stop.
pub open spec fn is_stop_signal(e: LoopEvent) -> bool {
    e is Quit || e is LowMemory
}

/// Whether any drained event asks the loop to stop.
pub open spec fn any_stop_signal(events: Seq<LoopEvent>) -> bool {
    exists|i: int| 0 <= i < events.len() && is_stop_signal(events[i])
}

/// Where one tick's events leave the loop: stopped stays stopped, and any
/// stop signal stops a running loop.
pub open spec fn next_state(s: LoopState, events: Seq<LoopEvent>) -> LoopState {
    if s is Stopped || any_stop_signal(events) {
        LoopState::Stopped
    } else {
        LoopState::Running
    }
}

/// The one command sequence every frame consists of.
pub open spec fn frame_sequence(program: u32, array: u32, n: usize) -> Seq<FrameCommand> {
    seq![
        FrameCommand::Clear,
        (FrameCommand::UsePipeline { program }),
        (FrameCommand::UseVertexLayout { array }),
        (FrameCommand::Draw { primitive: PrimitiveKind::Triangles, vertex_count: n }),
        FrameCommand::Present,
    ]
}

/// The shutdown command sequence: every owned object released exactly once,
/// in reverse acquisition order (the program was acquired first, then the
/// buffer, then the vertex array).
pub open spec fn release_sequence(array: u32, buffer: u32, program: u32) -> Seq<ReleaseCommand> {
    seq![
        (ReleaseCommand::DeleteVertexArray { array }),
        (ReleaseCommand::DeleteBuffer { buffer }),
        (ReleaseCommand::DeleteProgram { program }),
    ]
}

/// What one frame command does to the binding state.
pub open spec fn apply_command(s: RenderState, c: FrameCommand) -> RenderState {
    match c {
        FrameCommand::UsePipeline { program } => bind_program_step(s, program),
        FrameCommand::UseVertexLayout { array } => bind_array_step(s, array),
        _ => s,
    }
}

/// The binding state after the first `i` commands of `cmds`, starting from
/// `s`.
pub open spec fn replay(s: RenderState, cmds: Seq<FrameCommand>, i: int) -> RenderState
    decreases i,
{
    if i <= 0 {
        s
    } else {
        apply_command(replay(s, cmds, i - 1), cmds[i - 1])
    }
}

/// The frame orchestrator. It holds only copies of the handles it binds and
/// draws from; the pipeline and the vertex layout stay owned by the caller.
pub struct FrameLoop {
    state: LoopState,
    program: u32,
    array: u32,
    buffer: u32,
    vertex_count: usize,
    released: bool,
}

impl FrameLoop {
    /// Running frames, or stopped for good.
    pub closed spec fn state_spec(&self) -> LoopState {
        self.state
    }

    /// The program handle bound every frame.
    pub closed spec fn program_spec(&self) -> u32 {
        self.program
    }

    /// The vertex-array handle bound every frame.
    pub closed spec fn array_spec(&self) -> u32 {
        self.array
    }

    /// The buffer handle behind the vertex array.
    pub closed spec fn buffer_spec(&self) -> u32 {
        self.buffer
    }

    /// How many vertices each frame draws: every uploaded vertex.
    pub closed spec fn vertex_count_spec(&self) -> int {
        self.vertex_count as int
    }

    /// Whether the shutdown commands were already handed out.
    pub closed spec fn released_spec(&self) -> bool {
        self.released
    }

    /// The handles are real driver objects, and a running loop has not
    /// handed out its shutdown commands.
    pub open spec fn wf(&self) -> bool {
        &&& self.program_spec() != 0
        &&& self.array_spec() != 0
        &&& self.buffer_spec() != 0
        &&& (self.state_spec() is Running ==> !self.released_spec())
    }

    /// Starts a running loop over one pipeline and one vertex layout, which
    /// the caller keeps owning.
    pub fn new(pipeline: &Pipeline, binding: &VertexLayoutBinding) -> (fl: FrameLoop)
        requires
            pipeline.wf(),
            binding.wf(),
        ensures
            fl.wf(),
            fl.state_spec() is Running,
            !fl.released_spec(),
            fl.program_spec() == pipeline.id_spec(),
            fl.array_spec() == binding.array_spec(),
            fl.buffer_spec() == binding.buffer_spec(),
            fl.vertex_count_spec() == binding.vertex_count_spec(),
    {
        FrameLoop {
            state: LoopState::Running,
            program: pipeline.id(),
            array: binding.array_id(),
            buffer: binding.buffer_id(),
            vertex_count: binding.vertex_count(),
            released: false,
        }
    }

    /// Whether the loop is still running frames.
    pub fn is_running(&self) -> (r: bool)
        ensures
            r == (self.state_spec() is Running),
    {
        match self.state {
            LoopState::Running => true,
            LoopState::Stopped => false,
        }
    }

    /// Whether the shutdown commands were already handed out.
    pub fn has_released(&self) -> (r: bool)
        ensures
            r == self.released_spec(),
    {
        self.released
    }

    /// One iteration: consume the drained events, then either stop without
    /// issuing anything further — any stop signal among the events, or a loop
    /// already stopped, yields no commands and in particular no draw — or
    /// hand out the frame's command sequence.
    pub fn tick(&mut self, events: &Vec<LoopEvent>) -> (r: Option<Vec<FrameCommand>>)
        requires
            old(self).wf(),
        ensures
            final(self).wf(),
            final(self).program_spec() == old(self).program_spec(),
            final(self).array_spec() == old(self).array_spec(),
            final(self).buffer_spec() == old(self).buffer_spec(),
            final(self).vertex_count_spec() == old(self).vertex_count_spec(),
            final(self).released_spec() == old(self).released_spec(),
            final(self).state_spec() == next_state(old(self).state_spec(), events@),
            final(self).state_spec() is Stopped ==> r is None,
            final(self).state_spec() is Running ==> (r matches Some(c) && c@ == frame_sequence(
                old(self).program_spec(),
                old(self).array_spec(),
                old(self).vertex_count_spec() as usize,
            )),
    {
        match self.state {
            LoopState::Stopped => {
                return None;
            },
            LoopState::Running => {},
        }
        let mut stop = false;
        let mut i: usize = 0;
        while i < events.len()
            invariant
                i <= events@.len(),
                stop == any_stop_signal(events@.take(i as int)),
            decreases events@.len() - i,
        {
            let ghost prefix = events@.take(i as int);
            let ghost next = events@.take(i + 1 as int);
            let hit = match events[i] {
                LoopEvent::Quit => true,
                LoopEvent::LowMemory => true,
                LoopEvent::Other => false,
            };
            proof {
                assert(next[i as int] == events@[i as int]);
                if any_stop_signal(prefix) {
                    let w = choose|w: int| 0 <= w < prefix.len() && is_stop_signal(prefix[w]);
                    assert(is_stop_signal(next[w]));
                }
                if is_stop_signal(events@[i as int]) {
                    assert(is_stop_signal(next[i as int]));
                }
                if any_stop_signal(next) {
                    let w = choose|w: int| 0 <= w < next.len() && is_stop_signal(next[w]);
                    if w < i {
                        assert(is_stop_signal(prefix[w]));
                    }
                }
            }
            if hit {
                stop = true;
            }
            i += 1;
        }
        assert(events@.take(events@.len() as int) =~= events@);
        if stop {
            self.state = LoopState::Stopped;
            return None;
        }
        let mut commands: Vec<FrameCommand> = Vec::new();
        commands.push(FrameCommand::Clear);
        commands.push(FrameCommand::UsePipeline { program: self.program });
        commands.push(FrameCommand::UseVertexLayout { array: self.array });
        commands.push(
            FrameCommand::Draw {
                primitive: PrimitiveKind::Triangles,
                vertex_count: self.vertex_count,
            },
        );
        commands.push(FrameCommand::Present);
        assert(commands@ =~= frame_sequence(self.program, self.array, self.vertex_count));
        Some(commands)
    }

    /// Hands out the shutdown commands once: only after the loop stopped, and
    /// never a second time, so each owned object is released exactly once.
    pub fn shutdown(&mut self) -> (r: Option<Vec<ReleaseCommand>>)
        requires
            old(self).wf(),
        ensures
            final(self).wf(),
            final(self).program_spec() == old(self).program_spec(),
            final(self).array_spec() == old(self).array_spec(),
            final(self).buffer_spec() == old(self).buffer_spec(),
            final(self).vertex_count_spec() == old(self).vertex_count_spec(),
            final(self).state_spec() == old(self).state_spec(),
            old(self).state_spec() is Running || old(self).released_spec() ==> (r is None
                && final(self).released_spec() == old(self).released_spec()),
            old(self).state_spec() is Stopped && !old(self).released_spec()
                ==> (final(self).released_spec() && (r matches Some(c)
                && c@ == release_sequence(
                old(self).array_spec(),
                old(self).buffer_spec(),
                old(self).program_spec(),
            ))),
    {
        match self.state {
            LoopState::Running => {
                return None;
            },
            LoopState::Stopped => {},
        }
        if self.released {
            return None;
        }
        self.released = true;
        let mut commands: Vec<ReleaseCommand> = Vec::new();
        commands.push(ReleaseCommand::DeleteVertexArray { array: self.array });
        commands.push(ReleaseCommand::DeleteBuffer { buffer: self.buffer });
        commands.push(ReleaseCommand::DeleteProgram { program: self.program });
        assert(commands@ =~= release_sequence(self.array, self.buffer, self.program));
        Some(commands)
    }
}

/// A stop signal among one tick's events always leaves the loop stopped,
/// whatever state it started in; a stopped tick issues no commands, so no
/// further draw follows the signal.
pub proof fn lemma_stop_signal_stops(s: LoopState, events: Seq<LoopEvent>)
    requires
        any_stop_signal(events),
    ensures
        next_state(s, events) is Stopped,
{
}

/// A stopped loop never resumes: no event sequence brings it back.
pub proof fn lemma_stopped_stays_stopped(events: Seq<LoopEvent>)
    ensures
        next_state(LoopState::Stopped, events) is Stopped,
{
}

/// In every frame the loop emits, both binds precede the draw: whatever
/// binding state the frame starts from, at the draw command the frame's own
/// program and vertex array are the active ones, so the draw is well-defined.
pub proof fn lemma_frame_draw_preceded_by_binds(
    s: RenderState,
    program: u32,
    array: u32,
    n: usize,
)
    ensures
        frame_sequence(program, array, n)[3] matches FrameCommand::Draw { vertex_count, .. }
            && vertex_count == n,
        crate::state::draw_ready(replay(s, frame_sequence(program, array, n), 3)),
        replay(s, frame_sequence(program, array, n), 3).active_program == Some(program),
        replay(s, frame_sequence(program, array, n), 3).active_array == Some(array),
{
    let cs = frame_sequence(program, array, n);
    assert(replay(s, cs, 0) == s);
    assert(replay(s, cs, 1) == apply_command(s, cs[0]));
    assert(replay(s, cs, 2) == apply_command(replay(s, cs, 1), cs[1]));
    assert(replay(s, cs, 3) == apply_command(replay(s, cs, 2), cs[2]));
}

} // verus!
